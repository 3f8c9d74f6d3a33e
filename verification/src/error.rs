//! Errors of request construction.

use vstd::prelude::*;

verus! {

/// Why a request or URL could not be built.
#[derive(Debug)]
pub enum Error {
    /// A URL did not parse.
    UrlParse(oauth2::url::ParseError),
}

} // verus!
