//! The error type shared by the decoder and the binding emitter.

use vstd::prelude::*;
use vstd::string::StringExecFns;

verus! {

/// `core::str::Utf8Error`, carried through unopened.
#[verifier::external_type_specification]
#[verifier::external_body]
pub struct ExUtf8Error(core::str::Utf8Error);

/// `core::fmt::Error`, carried through unopened.
#[verifier::external_type_specification]
#[verifier::external_body]
pub struct ExFmtError(core::fmt::Error);

/// `untrusted::EndOfInput`, the unit error of the `untrusted` reader.
#[verifier::external_type_specification]
#[verifier::external_body]
pub struct ExEndOfInput(untrusted::EndOfInput);

/// Everything that can go wrong while decoding BTF.
#[derive(Debug)]
pub enum Error {
    /// The buffer is shorter than the next required read.
    EndOfInput,
    /// A section is shorter than the header declares; the tag names the section.
    Incomplete(&'static str),
    /// A fixed invariant of the format is violated; the tag says which.
    Malformed(&'static str),
    /// A declared offset lies outside its container; the tag names the offset.
    OutOfRange(&'static str, u64),
    /// A textual form holds an unknown token.
    Unexpected(&'static str),
    /// A field that the format requires is absent.
    Expected(&'static str),
    /// A formatter failed.
    FmtError(core::fmt::Error),
    /// String-table bytes are not valid UTF-8.
    Utf8Error(core::str::Utf8Error),
}

/// What contracts say about an [`Error`]: the variant and its plain fields.
pub enum SpecError {
    EndOfInput,
    Incomplete(Seq<char>),
    Malformed(Seq<char>),
    OutOfRange(Seq<char>, u64),
    Unexpected(Seq<char>),
    Expected(Seq<char>),
    Fmt,
    Utf8,
}

impl View for Error {
    type V = SpecError;

    open spec fn view(&self) -> SpecError {
        match *self {
            Error::EndOfInput => SpecError::EndOfInput,
            Error::Incomplete(tag) => SpecError::Incomplete(tag@),
            Error::Malformed(tag) => SpecError::Malformed(tag@),
            Error::OutOfRange(tag, n) => SpecError::OutOfRange(tag@, n),
            Error::Unexpected(tag) => SpecError::Unexpected(tag@),
            Error::Expected(tag) => SpecError::Expected(tag@),
            Error::FmtError(_) => SpecError::Fmt,
            Error::Utf8Error(_) => SpecError::Utf8,
        }
    }
}

impl SpecError {
    /// The message of the error, where the library words it; the two
    /// errors that come from `core` word their own.
    pub open spec fn message(self) -> Option<Seq<char>> {
        match self {
            SpecError::EndOfInput => Some("unexpected end of input"@),
            SpecError::Incomplete(_) => Some("incomplete BTF file"@),
            SpecError::Malformed(what) => Some("malformed BTF file, "@ + what),
            SpecError::OutOfRange(what, _) => Some("offset "@ + what + " out of range"@),
            SpecError::Unexpected(what) => Some("unexpected "@ + what),
            SpecError::Expected(what) => Some("expected "@ + what),
            SpecError::Fmt => None,
            SpecError::Utf8 => None,
        }
    }
}

impl Error {
    /// The message of the error.
    pub fn to_string(&self) -> (s: String)
        ensures
            self@.message() matches Some(m) ==> s@ == m,
    {
        match self {
            Error::EndOfInput => String::from_str("unexpected end of input"),
            Error::Incomplete(_) => String::from_str("incomplete BTF file"),
            Error::Malformed(what) => String::from_str("malformed BTF file, ").concat(what),
            Error::OutOfRange(what, _) => String::from_str("offset ").concat(what).concat(
                " out of range",
            ),
            Error::Unexpected(what) => String::from_str("unexpected ").concat(what),
            Error::Expected(what) => String::from_str("expected ").concat(what),
            Error::FmtError(e) => std::string::ToString::to_string(e),
            Error::Utf8Error(e) => std::string::ToString::to_string(e),
        }
    }
}

impl From<untrusted::EndOfInput> for Error {
    fn from(e: untrusted::EndOfInput) -> (err: Error) {
        Error::EndOfInput
    }
}

impl vstd::std_specs::convert::FromSpecImpl<untrusted::EndOfInput> for Error {
    open spec fn obeys_from_spec() -> bool {
        true
    }

    open spec fn from_spec(e: untrusted::EndOfInput) -> Error {
        Error::EndOfInput
    }
}

} // verus!
