//! Text that may cross to the engine.
//!
//! The engine reads a request up to its first zero byte, so text that holds
//! one inside cannot be handed over whole. [`CText`] is text that was checked
//! to hold none.

use vstd::prelude::*;
use vstd::slice::slice_to_vec;
use vstd::string::StringExecFns;
use vstd::string::StringSliceAdditionalSpecFns;
use vstd::utf8::{
    char_is_scalar, char_u32_cast, encode_scalar, encode_utf8, has_width_1_encoding, has_width_2_encoding,
    has_width_3_encoding, is_scalar,
};

use crate::decimal::{append_decimal, decimal};

verus! {

/// No byte of `bytes` is zero.
pub open spec fn is_nul_free(bytes: Seq<u8>) -> bool {
    forall|i: int| 0 <= i < bytes.len() ==> bytes[i] != 0u8
}

/// No character of `text` is U+0000, the one character that is encoded with
/// a zero byte.
pub open spec fn has_no_nul_char(text: Seq<char>) -> bool {
    forall|i: int| 0 <= i < text.len() ==> text[i] != '\0'
}

/// `position` is where the first zero byte of `bytes` stands.
pub open spec fn is_first_nul(bytes: Seq<u8>, position: int) -> bool {
    &&& 0 <= position < bytes.len()
    &&& bytes[position] == 0u8
    &&& is_nul_free(bytes.take(position))
}

/// Text with a zero byte inside, refused before it reaches the engine.
#[derive(Clone, Copy, Debug, PartialEq, Eq, Structural)]
pub struct NulError {
    position: usize,
}

impl NulError {
    /// Where the first zero byte of the refused text stands.
    pub closed spec fn position(self) -> usize {
        self.position
    }

    /// Where the first zero byte of the refused text stands.
    pub fn nul_position(&self) -> (position: usize)
        ensures
            position == self.position(),
    {
        self.position
    }

    /// The wording of the error.
    pub open spec fn message_text(self) -> Seq<char> {
        "nul byte found in provided data at position: "@ + decimal(self.position() as nat)
    }

    /// The error in words.
    pub fn message(&self) -> (message: String)
        ensures
            message@ == self.message_text(),
    {
        let mut message = String::from_str("nul byte found in provided data at position: ");
        append_decimal(&mut message, self.position as u64);
        message
    }
}

/// Finds the first zero byte of `bytes`.
pub fn find_nul(bytes: &[u8]) -> (found: Option<usize>)
    ensures
        match found {
            Some(position) => is_first_nul(bytes@, position as int),
            None => is_nul_free(bytes@),
        },
{
    let mut i: usize = 0;
    while i < bytes.len()
        invariant
            i <= bytes.len(),
            is_nul_free(bytes@.take(i as int)),
        decreases bytes.len() - i,
    {
        if bytes[i] == 0 {
            return Some(i);
        }
        i += 1;
    }
    assert(bytes@.take(i as int) =~= bytes@);
    None
}

/// Text without a zero byte: what the engine can take as a C string.
#[derive(Debug, PartialEq, Eq)]
pub struct CText {
    bytes: Vec<u8>,
}

impl View for CText {
    type V = Seq<u8>;

    /// The bytes of the text, without a terminator.
    closed spec fn view(&self) -> Seq<u8> {
        self.bytes@
    }
}

impl CText {
    #[verifier::type_invariant]
    spec fn nul_free(&self) -> bool {
        is_nul_free(self.bytes@)
    }

    /// Checks `text` and keeps its bytes, or says where its first zero byte
    /// stands. Text is accepted exactly when none of its characters is U+0000.
    pub fn new(text: &str) -> (made: Result<CText, NulError>)
        ensures
            match made {
                Ok(ctext) => is_nul_free(text.spec_bytes()) && ctext@ == text.spec_bytes(),
                Err(error) => is_first_nul(text.spec_bytes(), error.position() as int),
            },
            made is Ok <==> has_no_nul_char(text@),
    {
        proof {
            law_zero_bytes_are_nul_chars(text@);
        }
        let bytes = text.as_bytes();
        match find_nul(bytes) {
            Some(position) => Err(NulError { position }),
            None => Ok(CText { bytes: slice_to_vec(bytes) }),
        }
    }

    /// The bytes of the text, without a terminator.
    pub fn as_bytes(&self) -> (bytes: &[u8])
        ensures
            bytes@ == self@,
            is_nul_free(bytes@),
    {
        proof {
            use_type_invariant(self);
        }
        self.bytes.as_slice()
    }

    /// The text as the engine reads it: its bytes, then the terminator.
    pub fn into_bytes_with_nul(self) -> (bytes: Vec<u8>)
        ensures
            bytes@ == self@.push(0u8),
            is_first_nul(bytes@, self@.len() as int),
    {
        proof {
            use_type_invariant(&self);
        }
        let mut bytes = self.bytes;
        bytes.push(0u8);
        assert(bytes@.take(self@.len() as int) =~= self@);
        bytes
    }
}

/// Bytes put one after the other hold no zero byte exactly when neither
/// part holds one.
pub proof fn law_nul_free_parts(head: Seq<u8>, tail: Seq<u8>)
    ensures
        is_nul_free(head + tail) <==> is_nul_free(head) && is_nul_free(tail),
{
    let whole = head + tail;
    if is_nul_free(whole) {
        assert forall|i: int| 0 <= i < head.len() implies head[i] != 0u8 by {
            assert(whole[i] == head[i]);
        }
        assert forall|i: int| 0 <= i < tail.len() implies tail[i] != 0u8 by {
            assert(whole[head.len() + i] == tail[i]);
        }
    }
}

/// Where bytes hold a zero byte at all, exactly one position is that of
/// their first, and where they hold none, no position is.
pub proof fn law_first_nul_is_unique(bytes: Seq<u8>, position: int, other: int)
    requires
        is_first_nul(bytes, position),
    ensures
        !is_nul_free(bytes),
        is_first_nul(bytes, other) ==> other == position,
{
    if is_first_nul(bytes, other) {
        if other < position {
            assert(bytes.take(position)[other] == bytes[other]);
        }
        if position < other {
            assert(bytes.take(other)[position] == bytes[position]);
        }
    }
}

proof fn lemma_leading_bytes(scalar: u32)
    ensures
        scalar <= 0x7F ==> ((scalar & 0x7F) as u8 == 0u8 <==> scalar == 0),
        0xC0u8 | ((scalar >> 6) & 0x1F) as u8 != 0u8,
        0xE0u8 | ((scalar >> 12) & 0x0F) as u8 != 0u8,
        0xF0u8 | ((scalar >> 18) & 0x7) as u8 != 0u8,
        0x80u8 | (scalar & 0x3F) as u8 != 0u8,
        0x80u8 | ((scalar >> 6) & 0x3F) as u8 != 0u8,
        0x80u8 | ((scalar >> 12) & 0x3F) as u8 != 0u8,
{
    assert(scalar <= 0x7F ==> ((scalar & 0x7F) as u8 == 0u8 <==> scalar == 0)) by (bit_vector);
    assert(0xC0u8 | ((scalar >> 6) & 0x1F) as u8 != 0u8) by (bit_vector);
    assert(0xE0u8 | ((scalar >> 12) & 0x0F) as u8 != 0u8) by (bit_vector);
    assert(0xF0u8 | ((scalar >> 18) & 0x7) as u8 != 0u8) by (bit_vector);
    assert(0x80u8 | (scalar & 0x3F) as u8 != 0u8) by (bit_vector);
    assert(0x80u8 | ((scalar >> 6) & 0x3F) as u8 != 0u8) by (bit_vector);
    assert(0x80u8 | ((scalar >> 12) & 0x3F) as u8 != 0u8) by (bit_vector);
}

proof fn lemma_scalar_has_zero_byte(scalar: u32)
    requires
        is_scalar(scalar),
    ensures
        is_nul_free(encode_scalar(scalar)) <==> scalar != 0,
{
    lemma_leading_bytes(scalar);
    let bytes = encode_scalar(scalar);
    if has_width_1_encoding(scalar) {
        assert(bytes.len() == 1);
        if scalar == 0 {
            assert(bytes[0] == 0u8);
        }
    } else if has_width_2_encoding(scalar) {
        assert(bytes.len() == 2);
    } else if has_width_3_encoding(scalar) {
        assert(bytes.len() == 3);
    } else {
        assert(bytes.len() == 4);
    }
}

/// The encoding of text holds a zero byte exactly where the text holds the
/// character U+0000: no other character is encoded with one.
pub proof fn law_zero_bytes_are_nul_chars(text: Seq<char>)
    ensures
        is_nul_free(encode_utf8(text)) <==> has_no_nul_char(text),
    decreases text.len(),
{
    if text.len() > 0 {
        let first = text[0];
        let rest = text.drop_first();
        char_is_scalar(first);
        lemma_scalar_has_zero_byte(first as u32);
        law_zero_bytes_are_nul_chars(rest);
        law_nul_free_parts(encode_scalar(first as u32), encode_utf8(rest));
        assert(first as u32 != 0 <==> first != '\0') by {
            char_u32_cast(first, first as u32);
            char_u32_cast('\0', 0u32);
        }
        if has_no_nul_char(text) {
            assert forall|i: int| 0 <= i < rest.len() implies rest[i] != '\0' by {
                assert(rest[i] == text[i + 1]);
            }
        }
        if first != '\0' && has_no_nul_char(rest) {
            assert forall|i: int| 0 <= i < text.len() implies text[i] != '\0' by {
                if i > 0 {
                    assert(text[i] == rest[i - 1]);
                }
            }
        }
    }
}

} // verus!
