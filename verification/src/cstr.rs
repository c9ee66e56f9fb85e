//! C strings made from text: the NUL-terminated UTF-8 copy of a string, and
//! a pool that owns such copies for as long as it lives.

use crate::error::ConversionError;
use crate::nul::{
    find_nul, has_nul, is_nul_terminated, lemma_has_nul_concat, lemma_with_nul_terminated,
    with_nul,
};
use vstd::prelude::*;
use vstd::slice::slice_to_vec;
use vstd::utf8::{encode_scalar, encode_utf8};

verus! {

/// `text` holds the NUL character.
pub open spec fn has_nul_char(text: Seq<char>) -> bool {
    exists|i: int| 0 <= i < text.len() && text[i] == '\0'
}

/// The C string that stands for `text`: its UTF-8 bytes and one NUL byte
/// after them. It is a well-formed C string only where `text` holds no NUL
/// character; see [`lemma_c_string_of`].
pub open spec fn c_string_of(text: Seq<char>) -> Seq<u8> {
    with_nul(encode_utf8(text))
}

/// Of the bytes that UTF-8 is made of, only the single byte that stands
/// for the scalar 0 is the NUL byte: a leading byte of a longer encoding
/// and a continuation byte both carry a marker in their high bits.
proof fn lemma_utf8_byte_kinds(c: u32)
    by (bit_vector)
    ensures
        c <= 0x7F ==> (((c & 0x7F) as u8 == 0u8) <==> c == 0),
        0xC0u8 | ((c >> 6) & 0x1F) as u8 != 0u8,
        0xE0u8 | ((c >> 12) & 0x0F) as u8 != 0u8,
        0xF0u8 | ((c >> 18) & 0x7) as u8 != 0u8,
        0x80u8 | (c & 0x3F) as u8 != 0u8,
        0x80u8 | ((c >> 6) & 0x3F) as u8 != 0u8,
        0x80u8 | ((c >> 12) & 0x3F) as u8 != 0u8,
{
}

/// The UTF-8 encoding of a character holds a NUL byte exactly where the
/// character is NUL.
pub proof fn lemma_encode_scalar_nul(c: char)
    ensures
        has_nul(encode_scalar(c as u32)) <==> c == '\0',
{
    let s = c as u32;
    let e = encode_scalar(s);
    lemma_utf8_byte_kinds(s);
    if c == '\0' {
        assert(e[0] == 0u8);
    } else {
        assert forall|i: int| 0 <= i < e.len() implies e[i] != 0u8 by {}
    }
}

/// The UTF-8 bytes of a text hold a NUL byte exactly where the text holds
/// the NUL character: no other character has a zero byte in its encoding.
pub proof fn lemma_nul_byte_iff_nul_char(text: Seq<char>)
    ensures
        has_nul(encode_utf8(text)) <==> has_nul_char(text),
    decreases text.len(),
{
    if text.len() == 0 {
    } else {
        let rest = text.drop_first();
        lemma_encode_scalar_nul(text[0]);
        lemma_nul_byte_iff_nul_char(rest);
        lemma_has_nul_concat(encode_scalar(text[0] as u32), encode_utf8(rest));
        if has_nul_char(rest) {
            let i = choose|i: int| 0 <= i < rest.len() && rest[i] == '\0';
            assert(text[i + 1] == '\0');
        }
        if has_nul_char(text) {
            let i = choose|i: int| 0 <= i < text.len() && text[i] == '\0';
            if i > 0 {
                assert(rest[i - 1] == '\0');
            }
        }
    }
}

/// The C string of a text is NUL-terminated exactly where the text holds
/// no NUL character.
pub proof fn lemma_c_string_of(text: Seq<char>)
    ensures
        is_nul_terminated(c_string_of(text)) <==> !has_nul_char(text),
        c_string_of(text).len() == encode_utf8(text).len() + 1,
        c_string_of(text).drop_last() == encode_utf8(text),
{
    lemma_nul_byte_iff_nul_char(text);
    lemma_with_nul_terminated(encode_utf8(text));
}

/// A pool of C strings.
///
/// The pool owns a NUL-terminated copy of each text interned in it and
/// names the copy by a handle. Copies are only ever added: a handle, once
/// given out, names the same bytes at the same place in memory until the
/// pool is dropped.
///
/// The memory of a copy comes from the global allocator, which ends the
/// process where it has none left to give. So no error value stands for
/// an exhausted pool: the one way in which interning fails is a text that
/// cannot be a C string.
pub struct CstrPool {
    strings: Vec<Vec<u8>>,
}

impl View for CstrPool {
    type V = Seq<Seq<u8>>;

    /// The copies in the pool, each at the position that its handle gives.
    closed spec fn view(&self) -> Seq<Seq<u8>> {
        Seq::new(self.strings@.len(), |i: int| self.strings@[i]@)
    }
}

impl CstrPool {
    #[verifier::type_invariant]
    spec fn well_formed(&self) -> bool {
        forall|i: int|
            0 <= i < self.strings@.len() ==> is_nul_terminated(#[trigger] self.strings@[i]@)
    }

    /// A pool that holds nothing yet.
    pub fn new() -> (r: Self)
        ensures
            r@ == Seq::<Seq<u8>>::empty(),
    {
        CstrPool { strings: Vec::new() }
    }

    /// The number of copies in the pool.
    pub fn len(&self) -> (r: usize)
        ensures
            r == self@.len(),
    {
        self.strings.len()
    }

    /// Whether the pool holds no copy.
    pub fn is_empty(&self) -> (r: bool)
        ensures
            r == (self@.len() == 0),
    {
        self.strings.len() == 0
    }

    /// Copies `text` into the pool as a C string and returns the handle of
    /// the copy.
    ///
    /// A text that holds a NUL character is refused with
    /// [`ConversionError::InteriorNul`], and the pool stays as it was.
    /// Every other text is accepted: its copy goes behind the copies
    /// already there, which keep their handles and their bytes.
    pub fn intern(&mut self, text: &str) -> (r: Result<usize, ConversionError>)
        ensures
            r is Err <==> has_nul_char(text@),
            r is Err <==> has_nul(encode_utf8(text@)),
            r matches Err(e) ==> e == ConversionError::InteriorNul && final(self)@ == old(self)@,
            r matches Ok(handle) ==> {
                &&& handle == old(self)@.len()
                &&& final(self)@ == old(self)@.push(c_string_of(text@))
                &&& final(self)@[handle as int] == c_string_of(text@)
                &&& is_nul_terminated(c_string_of(text@))
                &&& forall|h: int|
                    0 <= h < old(self)@.len() ==> final(self)@[h] == old(self)@[h]
            },
    {
        let bytes = text.as_bytes();
        proof {
            lemma_c_string_of(text@);
            lemma_nul_byte_iff_nul_char(text@);
        }
        if find_nul(bytes).is_some() {
            return Err(ConversionError::InteriorNul);
        }
        let mut copy = slice_to_vec(bytes);
        copy.push(0u8);
        proof {
            use_type_invariant(&*self);
        }
        // The list leaves the pool while it grows, so that the pool is
        // well-formed at every step.
        let mut strings: Vec<Vec<u8>> = Vec::new();
        core::mem::swap(&mut self.strings, &mut strings);
        let handle = strings.len();
        strings.push(copy);
        core::mem::swap(&mut self.strings, &mut strings);
        assert(self@ =~= old(self)@.push(c_string_of(text@)));
        Ok(handle)
    }

    /// The copy that `handle` names, terminator and all, or `None` where
    /// the pool gave out no such handle.
    pub fn get(&self, handle: usize) -> (r: Option<&[u8]>)
        ensures
            r is Some <==> handle < self@.len(),
            r matches Some(s) ==> s@ == self@[handle as int] && is_nul_terminated(s@),
    {
        if handle < self.strings.len() {
            proof {
                use_type_invariant(self);
            }
            Some(self.strings[handle].as_slice())
        } else {
            None
        }
    }
}

} // verus!
