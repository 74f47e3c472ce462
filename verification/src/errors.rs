//! The crate's error type.

use vstd::prelude::*;

verus! {

/// Declares `url::ParseError` so it can stand in the error enum; the value
/// is carried through opaquely.
#[verifier::external_type_specification]
#[verifier::external_body]
pub struct ExParseError(url::ParseError);

#[derive(Debug)]
pub enum Error {
    /// A failure of the agent's own making, described in text.
    BotError(String),
    /// A URL the agent assembled did not parse.
    Url(url::ParseError),
}

} // verus!
