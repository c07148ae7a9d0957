//! The error taxonomy: a short stream, an absent codec, or an underlying
//! stream failure.

use vstd::prelude::*;

verus! {

/// Declares `std::io::Error` so that values of it can be carried inside
/// `Error::Io`; nothing is assumed about its contents.
#[verifier::external_type_specification]
#[verifier::external_body]
pub struct ExIoError(std::io::Error);

/// The failures that detection and dispatch can report.
///
/// No other failure is ever produced: detection never fails on content it does
/// not recognise, since unrecognised content is classified as plain data.
#[derive(Debug)]
pub enum Error {
    /// Fewer than five bytes were available before the end of the stream
    /// while the magic prefix was being read.
    FileTooShort,
    /// The codec for the requested or detected format is not enabled.
    FeatureDisabled,
    /// Any other failure of the underlying stream, with its cause.
    Io(std::io::Error),
}

} // verus!
