//! What can go wrong.

use vstd::prelude::*;

verus! {

/// An error.
#[derive(Debug)]
pub enum Error {
    /// A value is not of the type that it should be.
    TypeError,
    /// The configuration cannot be used. The text says why.
    ConfigError(String),
}

/// Whether a result is a configuration error with this text.
pub open spec fn is_config_error<T>(r: Result<T, Error>, text: Seq<char>) -> bool {
    r matches Err(Error::ConfigError(t)) && t@ == text
}

/// A configuration error with this text.
pub fn config_error<T>(text: &str) -> (r: Result<T, Error>)
    ensures
        is_config_error(r, text@),
{
    Err(Error::ConfigError(text.to_owned()))
}

} // verus!
