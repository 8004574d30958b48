//! Errors reported while validating usernames.

use vstd::prelude::*;

verus! {

/// Ways in which a username can fail validation.
#[derive(Debug, Clone, Copy, PartialEq, Eq, Structural)]
pub enum UsernameError {
    /// The username was empty.
    Empty,
    /// The username was longer than 16 bytes.
    TooLong,
    /// The username contained the given invalid character.
    InvalidCharacter(char),
}

} // verus!
