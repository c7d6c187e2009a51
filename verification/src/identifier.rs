//! Validation of application bundle identifiers.
//!
//! A bundle identifier names the packaged application to the host platform.
//! It must consist of exactly three dot-separated segments (as in
//! `org.myorg.myapp`) and may not contain `-` or `_`.

use vstd::prelude::*;
use vstd::utf8::encode_utf8;

verus! {

/// The error of a rejected identifier, carrying the reason.
#[derive(Debug)]
pub enum IdentifierError {
    /// The identifier broke one of the rules; the message names it.
    InvalidIdentifier(String),
}

/// Whether the bytes contain `-` or `_`.
pub open spec fn has_forbidden_char(s: Seq<u8>) -> bool {
    exists|i: int| 0 <= i < s.len() && (s[i] == 0x2du8 || s[i] == 0x5fu8)
}

/// How often `b` occurs in `s`.
pub open spec fn count_byte(s: Seq<u8>, b: u8) -> int
    decreases s.len(),
{
    if s.len() == 0 {
        0int
    } else {
        count_byte(s.drop_last(), b) + if s.last() == b {
            1int
        } else {
            0int
        }
    }
}

/// Whether the bytes form a valid bundle identifier: no `-` or `_`, and
/// exactly three dot-separated segments (i.e. exactly two dots).
pub open spec fn valid_identifier(s: Seq<u8>) -> bool {
    !has_forbidden_char(s) && count_byte(s, 0x2eu8) == 2
}

/// Validates a bundle identifier: `Ok` exactly when it contains no `-` or
/// `_` and has exactly three dot-separated segments. The error carries the
/// message naming the rule that was broken, the `-`/`_` rule first.
pub fn validate_identifier(identifier: &String) -> (r: Result<(), IdentifierError>)
    ensures
        r is Ok <==> valid_identifier(encode_utf8(identifier@)),
        has_forbidden_char(encode_utf8(identifier@)) ==> (r matches Err(
            IdentifierError::InvalidIdentifier(m),
        ) && m@ == "The bundle identifier can only contain alphanumerical characters."@),
        !has_forbidden_char(encode_utf8(identifier@)) && count_byte(
            encode_utf8(identifier@),
            0x2eu8,
        ) != 2 ==> (r matches Err(IdentifierError::InvalidIdentifier(m)) && m@
            == "The bundle identifier must contain three segments split by points (eg. 'org.myorg.myapp')."@),
{
    let bytes: &[u8] = identifier.as_str().as_bytes();
    let n = bytes.len();
    let mut dots: usize = 0;
    let mut i: usize = 0;
    while i < n
        invariant
            n == bytes@.len(),
            i <= n,
            bytes@ == encode_utf8(identifier@),
            forall|k: int| 0 <= k < i ==> bytes@[k] != 0x2du8 && bytes@[k] != 0x5fu8,
            dots == count_byte(bytes@.take(i as int), 0x2eu8),
            dots <= i,
        decreases n - i,
    {
        let b = bytes[i];
        if b == 0x2d || b == 0x5f {
            proof {
                let w = i as int;
                assert(0 <= w < bytes@.len() && (bytes@[w] == 0x2du8 || bytes@[w] == 0x5fu8));
                assert(has_forbidden_char(bytes@));
            }
            return Err(
                IdentifierError::InvalidIdentifier(
                    "The bundle identifier can only contain alphanumerical characters.".to_owned(),
                ),
            );
        }
        if b == 0x2e {
            dots = dots + 1;
        }
        i = i + 1;
        proof {
            assert(bytes@.take(i as int).drop_last() =~= bytes@.take(i - 1));
            assert(bytes@.take(i as int).last() == b);
        }
    }
    proof {
        assert(bytes@.take(n as int) =~= bytes@);
        assert(!has_forbidden_char(bytes@));
    }
    if dots != 2 {
        return Err(
            IdentifierError::InvalidIdentifier(
                "The bundle identifier must contain three segments split by points (eg. 'org.myorg.myapp').".to_owned(),
            ),
        );
    }
    Ok(())
}

} // verus!
