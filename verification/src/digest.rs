//! Hashing of pattern strings.
//!
//! A blocklist entry is the SHA-1 digest of a pattern's UTF-8 bytes, rendered
//! as lowercase hexadecimal. The digest itself comes from an outside
//! implementation; the hexadecimal rendering is verified here.

use vstd::prelude::*;
use vstd::string::StringSliceAdditionalSpecFns;
use sha1::Digest;

verus! {

/// The SHA-1 digest of a byte sequence. The algorithm is pages long, so the
/// digest is left as a name; it is a function of the input bytes alone.
pub uninterp spec fn sha1_of(data: Seq<u8>) -> Seq<u8>;

/// Relies on `sha1::Sha1::digest` (the RustCrypto SHA-1 implementation):
/// the digest depends on the input bytes alone, and SHA-1 always produces
/// a 20-byte digest.
#[verifier::external_body]
fn sha1_digest(data: &[u8]) -> (r: Vec<u8>)
    ensures
        r@ == sha1_of(data@),
        r@.len() == 20,
{
    sha1::Sha1::digest(data).to_vec()
}

/// The sixteen lowercase hexadecimal digits, in value order.
pub open spec fn hex_digits() -> Seq<char> {
    seq!['0', '1', '2', '3', '4', '5', '6', '7', '8', '9', 'a', 'b', 'c', 'd', 'e', 'f']
}

/// Lowercase hexadecimal rendering of a byte sequence: two digits per byte,
/// high nibble first.
pub open spec fn hex_lower_of(data: Seq<u8>) -> Seq<char> {
    Seq::new(
        data.len() * 2,
        |i: int|
            if i % 2 == 0 {
                hex_digits()[(data[i / 2] / 16) as int]
            } else {
                hex_digits()[(data[i / 2] % 16) as int]
            },
    )
}

/// The hash-set entry a pattern is looked up under: the lowercase hex
/// rendering of the SHA-1 digest of the pattern's UTF-8 bytes.
pub open spec fn pattern_hash(pattern: Seq<char>) -> Seq<char> {
    hex_lower_of(sha1_of(vstd::utf8::encode_utf8(pattern)))
}

fn hex_digit_str(n: u8) -> (r: &'static str)
    requires
        n < 16,
    ensures
        r@.len() == 1,
        r@[0] == hex_digits()[n as int],
{
    proof {
        reveal_strlit("0");
        reveal_strlit("1");
        reveal_strlit("2");
        reveal_strlit("3");
        reveal_strlit("4");
        reveal_strlit("5");
        reveal_strlit("6");
        reveal_strlit("7");
        reveal_strlit("8");
        reveal_strlit("9");
        reveal_strlit("a");
        reveal_strlit("b");
        reveal_strlit("c");
        reveal_strlit("d");
        reveal_strlit("e");
        reveal_strlit("f");
    }
    if n == 0 {
        "0"
    } else if n == 1 {
        "1"
    } else if n == 2 {
        "2"
    } else if n == 3 {
        "3"
    } else if n == 4 {
        "4"
    } else if n == 5 {
        "5"
    } else if n == 6 {
        "6"
    } else if n == 7 {
        "7"
    } else if n == 8 {
        "8"
    } else if n == 9 {
        "9"
    } else if n == 10 {
        "a"
    } else if n == 11 {
        "b"
    } else if n == 12 {
        "c"
    } else if n == 13 {
        "d"
    } else if n == 14 {
        "e"
    } else {
        "f"
    }
}

fn hex_lower(data: &Vec<u8>) -> (r: String)
    ensures
        r@ == hex_lower_of(data@),
{
    let mut r = String::new();
    let mut i: usize = 0;
    while i < data.len()
        invariant
            i <= data@.len(),
            r@ =~= hex_lower_of(data@).take(2 * i as int),
        decreases data@.len() - i,
    {
        let b = data[i];
        r.append(hex_digit_str(b / 16));
        r.append(hex_digit_str(b % 16));
        proof {
            assert(r@ =~= hex_lower_of(data@).take(2 * (i + 1) as int));
        }
        i += 1;
    }
    proof {
        assert(hex_lower_of(data@).take(2 * i as int) =~= hex_lower_of(data@));
    }
    r
}

/// Computes the hash-set entry for a pattern string: SHA-1 over its UTF-8
/// bytes, rendered as lowercase hexadecimal.
pub fn compute_pattern_hash(pattern: &str) -> (r: String)
    ensures
        r@ == pattern_hash(pattern@),
{
    let digest = sha1_digest(pattern.as_bytes());
    hex_lower(&digest)
}

} // verus!
