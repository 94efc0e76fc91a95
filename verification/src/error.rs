use vstd::prelude::*;

verus! {

/// Why a message of one generation has no counterpart in the other.
#[derive(Debug, Clone, Copy, PartialEq, Eq, Structural)]
pub enum ConversionError {
    /// The method is not a method of the target crate.
    Method,
    /// The URI does not parse in the target crate.
    Uri,
    /// The number is not a status code of the target crate.
    Status,
    /// A header name is not a header name of the target crate.
    HeaderName,
    /// The bytes of a header value are not a header value of the target crate.
    HeaderValue,
    /// The header map of the target crate refused to grow.
    TooManyHeaders,
}

} // verus!
