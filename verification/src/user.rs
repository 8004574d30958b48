//! Basic user data and username validation.

use vstd::prelude::*;
use vstd::string::StringSliceAdditionalSpecFns;

use crate::error::UsernameError;

verus! {

/// Basic user information.
#[derive(Debug, Clone, PartialEq)]
pub struct User {
    /// The UUID of the user.
    pub id: String,
    /// The username of the user.
    pub name: String,
}

/// A character the service can hand back in a username: ASCII alphanumeric
/// or an underscore.
pub open spec fn valid_username_char(c: char) -> bool {
    ('a' <= c <= 'z') || ('A' <= c <= 'Z') || ('0' <= c <= '9') || c == '_'
}

/// The leftmost character of a sequence that is not valid in a username,
/// if there is one.
pub open spec fn first_invalid_char(s: Seq<char>) -> Option<char>
    decreases s.len(),
{
    if s.len() == 0 {
        None
    } else if !valid_username_char(s.first()) {
        Some(s.first())
    } else {
        first_invalid_char(s.drop_first())
    }
}

/// What validating a username returns: the empty and over-long checks go by
/// the UTF-8 byte length, then the leftmost invalid character is reported.
pub open spec fn validate_username_spec(s: Seq<char>) -> Result<(), UsernameError> {
    if vstd::utf8::encode_utf8(s).len() == 0 {
        Err(UsernameError::Empty)
    } else if vstd::utf8::encode_utf8(s).len() > 16 {
        Err(UsernameError::TooLong)
    } else {
        match first_invalid_char(s) {
            Some(c) => Err(UsernameError::InvalidCharacter(c)),
            None => Ok(()),
        }
    }
}

/// Checks whether a username has the shape the service may return: nonempty,
/// at most 16 bytes, and made of ASCII alphanumerics and underscores.
///
/// This does not check whether the name is currently available or currently
/// issuable; in particular no lower length bound is enforced, as some very
/// old accounts do hold names shorter than three characters.
pub fn validate_username(username: &str) -> (r: Result<(), UsernameError>)
    ensures
        r == validate_username_spec(username@),
{
    broadcast use vstd::slice::axiom_spec_len;

    let byte_len = username.as_bytes().len();
    if byte_len == 0 {
        return Err(UsernameError::Empty);
    }
    if byte_len > 16 {
        return Err(UsernameError::TooLong);
    }
    let n = username.unicode_len();
    let mut i: usize = 0;
    proof {
        assert(username@.skip(0) =~= username@);
    }
    while i < n
        invariant
            n == username@.len(),
            i <= n,
            vstd::utf8::encode_utf8(username@).len() > 0,
            vstd::utf8::encode_utf8(username@).len() <= 16,
            first_invalid_char(username@) == first_invalid_char(username@.skip(i as int)),
        decreases n - i,
    {
        let c = username.get_char(i);
        if !(('a' <= c && c <= 'z') || ('A' <= c && c <= 'Z') || ('0' <= c && c <= '9') || c
            == '_') {
            proof {
                assert(username@.skip(i as int).first() == c);
            }
            return Err(UsernameError::InvalidCharacter(c));
        }
        proof {
            assert(username@.skip(i as int).drop_first() =~= username@.skip(i + 1 as int));
        }
        i += 1;
    }
    proof {
        assert(username@.skip(n as int) =~= Seq::<char>::empty());
    }
    Ok(())
}

} // verus!
