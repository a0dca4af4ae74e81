//! The failures of request construction.

use http::header::InvalidHeaderValue;
use url::ParseError;
use vstd::prelude::*;

verus! {

/// Why a request could not be constructed.
#[derive(Debug)]
pub enum HttpError {
    /// The resolved path is not an absolute address.
    InvalidUrl(ParseError),
    /// A text cannot stand in a header value.
    InvalidHeader(InvalidHeaderValue),
}

} // verus!
