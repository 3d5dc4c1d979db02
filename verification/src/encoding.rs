//! Encoding and decoding of bytes as text.
//!
//! Each codec is a pair of functions without state: what `encode` and
//! `decode` return depends on their argument alone.

use vstd::prelude::*;
use vstd::string::*;

verus! {

/// How the standard library writes `c` for debugging: between single quotes,
/// escaped where it would not print as itself.
pub uninterp spec fn char_debug(c: char) -> Seq<char>;

/// Formats `c` with the standard library's `Debug` for `char`. The text is a
/// function of the character alone; the contract gives it its name and says
/// no more of it.
#[verifier::external_body]
fn debug_char(c: char) -> (s: String)
    ensures
        s@ == char_debug(c),
{
    format!("{:?}", c)
}

/// Decoding errors.
#[derive(Debug, Clone, PartialEq, Eq)]
pub enum DecodeError {
    /// Invalid character in input.
    InvalidCharacter(char),
    /// Invalid length.
    InvalidLength,
    /// Invalid padding.
    InvalidPadding,
    /// Invalid UTF-8.
    InvalidUtf8,
}

impl DecodeError {
    /// The text that describes this error, where `shown` is how the
    /// character of `InvalidCharacter` is written.
    pub open spec fn text_showing(&self, shown: Seq<char>) -> Seq<char> {
        match self {
            DecodeError::InvalidCharacter(_) => "invalid character: "@ + shown,
            DecodeError::InvalidLength => "invalid length"@,
            DecodeError::InvalidPadding => "invalid padding"@,
            DecodeError::InvalidUtf8 => "invalid UTF-8"@,
        }
    }

    /// The text that describes this error: the character of
    /// `InvalidCharacter` is written as for debugging.
    pub open spec fn text(&self) -> Seq<char> {
        match self {
            DecodeError::InvalidCharacter(c) => self.text_showing(char_debug(*c)),
            _ => self.text_showing(Seq::empty()),
        }
    }

    /// Describes the error in words, with `shown` for the character of
    /// `InvalidCharacter`.
    pub fn to_string_showing(&self, shown: &str) -> (s: String)
        ensures
            s@ == self.text_showing(shown@),
    {
        match self {
            DecodeError::InvalidCharacter(_) => "invalid character: ".to_owned().concat(shown),
            DecodeError::InvalidLength => "invalid length".to_owned(),
            DecodeError::InvalidPadding => "invalid padding".to_owned(),
            DecodeError::InvalidUtf8 => "invalid UTF-8".to_owned(),
        }
    }

    /// Describes the error in words.
    pub fn to_string(&self) -> (s: String)
        ensures
            s@ == self.text(),
    {
        match self {
            DecodeError::InvalidCharacter(c) => {
                let shown = debug_char(*c);
                self.to_string_showing(shown.as_str())
            },
            _ => self.to_string_showing(""),
        }
    }
}

/// Decoded bytes as the contracts see them.
pub open spec fn bytes_of(r: Result<Vec<u8>, DecodeError>) -> Result<Seq<u8>, DecodeError> {
    match r {
        Ok(bytes) => Ok(bytes@),
        Err(e) => Err(e),
    }
}

/// Decoded text as the contracts see it.
pub open spec fn text_of(r: Result<String, DecodeError>) -> Result<Seq<char>, DecodeError> {
    match r {
        Ok(text) => Ok(text@),
        Err(e) => Err(e),
    }
}

/// Base64 encoding/decoding.
pub trait Base64 {
    /// The encoding of `data`.
    spec fn encoded(data: Seq<u8>) -> Seq<char>;

    /// What `encoded` decodes to.
    spec fn decoded(encoded: Seq<char>) -> Result<Seq<u8>, DecodeError>;

    /// Encode bytes to base64 string.
    fn encode(data: &[u8]) -> (s: String)
        ensures
            s@ == Self::encoded(data@),
    ;

    /// Decode base64 string to bytes.
    fn decode(encoded: &str) -> (r: Result<Vec<u8>, DecodeError>)
        ensures
            bytes_of(r) == Self::decoded(encoded@),
    ;
}

/// URL-safe Base64 encoding/decoding (no padding).
pub trait Base64Url {
    /// The encoding of `data`.
    spec fn encoded(data: Seq<u8>) -> Seq<char>;

    /// What `encoded` decodes to.
    spec fn decoded(encoded: Seq<char>) -> Result<Seq<u8>, DecodeError>;

    /// Encode bytes to URL-safe base64 string.
    fn encode(data: &[u8]) -> (s: String)
        ensures
            s@ == Self::encoded(data@),
    ;

    /// Decode URL-safe base64 string to bytes.
    fn decode(encoded: &str) -> (r: Result<Vec<u8>, DecodeError>)
        ensures
            bytes_of(r) == Self::decoded(encoded@),
    ;
}

/// Hexadecimal encoding/decoding.
pub trait Hex {
    /// The encoding of `data` in lowercase.
    spec fn encoded(data: Seq<u8>) -> Seq<char>;

    /// The encoding of `data` in uppercase.
    spec fn encoded_upper(data: Seq<u8>) -> Seq<char>;

    /// What `encoded` decodes to.
    spec fn decoded(encoded: Seq<char>) -> Result<Seq<u8>, DecodeError>;

    /// Encode bytes to hex string.
    fn encode(data: &[u8]) -> (s: String)
        ensures
            s@ == Self::encoded(data@),
    ;

    /// Encode bytes to uppercase hex string.
    fn encode_upper(data: &[u8]) -> (s: String)
        ensures
            s@ == Self::encoded_upper(data@),
    ;

    /// Decode hex string to bytes.
    fn decode(encoded: &str) -> (r: Result<Vec<u8>, DecodeError>)
        ensures
            bytes_of(r) == Self::decoded(encoded@),
    ;
}

/// URL encoding/decoding (percent encoding).
pub trait UrlEncoding {
    /// The encoding of `input`.
    spec fn encoded(input: Seq<char>) -> Seq<char>;

    /// What `encoded` decodes to.
    spec fn decoded(encoded: Seq<char>) -> Result<Seq<char>, DecodeError>;

    /// Encode a string for use in URLs.
    fn encode(input: &str) -> (s: String)
        ensures
            s@ == Self::encoded(input@),
    ;

    /// Decode a URL-encoded string.
    fn decode(encoded: &str) -> (r: Result<String, DecodeError>)
        ensures
            text_of(r) == Self::decoded(encoded@),
    ;
}

} // verus!
