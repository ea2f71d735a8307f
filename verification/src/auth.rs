//! The authorization gate guarding the administrative route group.
//!
//! A request is admitted exactly when its credential header is present and
//! equals `"Bearer "` followed by the shared secret, byte for byte. The
//! comparison scans the whole header value instead of stopping at the
//! first mismatch, so its running time does not tell a caller how much of
//! a guessed secret was right.

use vstd::prelude::*;

verus! {

/// The shared secret of the administrative route group.
#[derive(Clone)]
pub struct AdminScope {
    /// The secret a caller must present, immutable for the process lifetime.
    pub secret: String,
}

/// The decision of the authorization gate.
#[derive(Debug, PartialEq, Eq, Structural, Clone, Copy)]
pub enum AuthDecision {
    Allow,
    Reject,
}

/// The one header value that is admitted for a given secret.
pub open spec fn spec_expected_credential(secret: Seq<char>) -> Seq<char> {
    "Bearer "@ + secret
}

/// Whether the header value equals `"Bearer "` followed by the secret.
#[verifier::loop_isolation(false)]
fn credential_matches(header: &str, secret: &str) -> (matches: bool)
    ensures
        matches == (header@ == spec_expected_credential(secret@)),
{
    let bearer = "Bearer ";
    proof {
        reveal_strlit("Bearer ");
    }
    let header_len = header.unicode_len();
    let secret_len = secret.unicode_len();
    if header_len < 7 || header_len - 7 != secret_len {
        proof {
            if header@ == spec_expected_credential(secret@) {
                assert(header@.len() == 7 + secret@.len());
            }
        }
        return false;
    }
    let ghost expected = spec_expected_credential(secret@);
    let mut matches = true;
    let mut i: usize = 0;
    while i < header_len
        invariant
            i <= header_len,
            matches ==> forall|k: int| 0 <= k < i ==> header@[k] == expected[k],
            !matches ==> header@ != expected,
        decreases header_len - i,
    {
        let want = if i < 7 {
            bearer.get_char(i)
        } else {
            secret.get_char(i - 7)
        };
        assert(want == expected[i as int]);
        if header.get_char(i) != want {
            proof {
                assert(header@[i as int] != expected[i as int]);
            }
            matches = false;
        }
        i += 1;
    }
    proof {
        if matches {
            assert(header@ =~= expected);
        }
    }
    matches
}

/// Law (exactness of authorization): the request is admitted if and only if the
/// credential header is present and its value is exactly `"Bearer "`
/// followed by the secret. A missing header, a different scheme, a
/// truncated or padded value, or a different secret is rejected.
pub fn authorize(header: Option<&str>, secret: &str) -> (decision: AuthDecision)
    ensures
        decision == AuthDecision::Allow <==> (header matches Some(h) && h@
            == spec_expected_credential(secret@)),
{
    match header {
        None => AuthDecision::Reject,
        Some(h) => {
            if credential_matches(h, secret) {
                AuthDecision::Allow
            } else {
                AuthDecision::Reject
            }
        },
    }
}

} // verus!
