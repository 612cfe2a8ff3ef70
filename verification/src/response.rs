//! Answers of the engine.
//!
//! The engine answers with bytes, or with nothing. The bytes are meant to be
//! UTF-8, and an answer that is not is refused here: it never becomes text.

use vstd::prelude::*;
use vstd::string::StringExecFns;
use vstd::utf8::{
    decode_utf8, decode_utf8_encode_utf8, encode_utf8, encode_utf8_decode_utf8,
    encode_utf8_valid_utf8, valid_utf8,
};

verus! {

/// The error that `String::from_utf8` returns; only ever told apart from success.
#[verifier::external_type_specification]
#[verifier::external_body]
pub struct ExFromUtf8Error(std::string::FromUtf8Error);

/// `String::from_utf8` accepts exactly the bytes that are well-formed UTF-8,
/// and the string it makes of them holds the characters that they encode.
pub assume_specification[ String::from_utf8 ](bytes: Vec<u8>) -> (made: Result<
    String,
    std::string::FromUtf8Error,
>)
    ensures
        made is Ok <==> valid_utf8(bytes@),
        made matches Ok(text) ==> text@ == decode_utf8(bytes@),
;

/// An answer of the engine that is not UTF-8.
#[derive(Clone, Copy, Debug, PartialEq, Eq, Structural)]
pub struct DecodeError;

impl DecodeError {
    /// The wording of the error.
    pub open spec fn message_text(self) -> Seq<char> {
        "tdlib sent invalid utf-8 string"@
    }

    /// The error in words.
    pub fn message(&self) -> (message: String)
        ensures
            message@ == self.message_text(),
    {
        String::from_str("tdlib sent invalid utf-8 string")
    }
}

/// What an answer of the engine means: nothing where the engine gave
/// nothing, the text that the bytes encode where they are UTF-8, and an
/// error where they are not.
pub open spec fn decoded(raw: Option<Seq<u8>>) -> Result<Option<Seq<char>>, DecodeError> {
    match raw {
        None => Ok(None),
        Some(bytes) => if valid_utf8(bytes) {
            Ok(Some(decode_utf8(bytes)))
        } else {
            Err(DecodeError)
        },
    }
}

/// The bytes of an answer, as the contracts speak of it.
pub open spec fn raw_view(raw: Option<Vec<u8>>) -> Option<Seq<u8>> {
    match raw {
        None => None,
        Some(bytes) => Some(bytes@),
    }
}

/// The characters of a decoded answer, as the contracts speak of it.
pub open spec fn text_view(text: Option<String>) -> Option<Seq<char>> {
    match text {
        None => None,
        Some(text) => Some(text@),
    }
}

/// Decodes an answer of the engine. It fails on bytes that are not UTF-8 and
/// on nothing else.
pub fn decode(raw: Option<Vec<u8>>) -> (answer: Result<Option<String>, DecodeError>)
    ensures
        match decoded(raw_view(raw)) {
            Ok(text) => answer matches Ok(made) && text_view(made) == text,
            Err(error) => answer == Err::<Option<String>, DecodeError>(error),
        },
{
    match raw {
        None => Ok(None),
        Some(bytes) => match String::from_utf8(bytes) {
            Ok(text) => Ok(Some(text)),
            Err(_) => Err(DecodeError),
        },
    }
}

/// The one answer of the engine that is still valid.
///
/// The engine keeps an answer only until the next call that produces one.
/// A buffer therefore holds at most one answer, gives it out on loan, and
/// loses it as soon as such a call is issued.
#[derive(Debug)]
pub struct Buffer {
    text: Option<String>,
}

impl View for Buffer {
    type V = Option<Seq<char>>;

    /// The answer that is still valid, if there is one.
    closed spec fn view(&self) -> Option<Seq<char>> {
        text_view(self.text)
    }
}

impl Buffer {
    /// A buffer that holds no answer.
    pub fn new() -> (buffer: Buffer)
        ensures
            buffer@ is None,
    {
        Buffer { text: None }
    }

    /// Forgets the answer: a call that produces the next one has been issued.
    pub fn invalidate(&mut self)
        ensures
            final(self)@ is None,
    {
        self.text = None;
    }

    /// Decodes what the engine gave and keeps it as the valid answer. Bytes
    /// that are not UTF-8 are refused, and the buffer then holds nothing.
    pub fn store(&mut self, raw: Option<Vec<u8>>) -> (stored: Result<(), DecodeError>)
        ensures
            match decoded(raw_view(raw)) {
                Ok(text) => stored is Ok && final(self)@ == text,
                Err(error) => stored == Err::<(), DecodeError>(error) && final(self)@ is None,
            },
    {
        match decode(raw) {
            Ok(text) => {
                self.text = text;
                Ok(())
            },
            Err(error) => {
                self.text = None;
                Err(error)
            },
        }
    }

    /// The valid answer, on loan for as long as the buffer is not touched.
    pub fn text(&self) -> (text: Option<&str>)
        ensures
            match text {
                Some(text) => self@ == Some(text@),
                None => self@ is None,
            },
    {
        match &self.text {
            Some(text) => Some(text.as_str()),
            None => None,
        }
    }
}

/// Text that went to the engine and comes back byte for byte is decoded to
/// the same text: no text that can be sent is refused as an answer.
pub proof fn law_text_comes_back(text: Seq<char>)
    ensures
        decoded(Some(encode_utf8(text))) == Ok::<Option<Seq<char>>, DecodeError>(Some(text)),
{
    encode_utf8_valid_utf8(text);
    encode_utf8_decode_utf8(text);
}

/// An answer is decoded to nothing, to text or to an error, and to text
/// exactly where the engine gave bytes that are UTF-8. The text then stands
/// for those bytes and no others: encoded again it gives them back.
pub proof fn law_decoded_text_keeps_bytes(raw: Option<Seq<u8>>)
    ensures
        decoded(raw) is Err <==> (raw matches Some(bytes) && !valid_utf8(bytes)),
        decoded(raw) == Ok::<Option<Seq<char>>, DecodeError>(None) <==> raw is None,
        decoded(raw) matches Ok(Some(text)) ==> raw == Some(encode_utf8(text)),
{
    if let Some(bytes) = raw {
        if valid_utf8(bytes) {
            decode_utf8_encode_utf8(bytes);
        }
    }
}

} // verus!
