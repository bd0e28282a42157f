//! The authenticated boundary's credential gate: one shared bearer token,
//! either operator-supplied or generated once at startup, and the decision
//! whether a request's credential matches it. The decision runs before any
//! engine interaction; a request that fails it is rejected outright.

use vstd::prelude::*;
use vstd::string::{StrSliceExecFns, StringExecFns};
use crate::hexcode::push_char;

verus! {

/// The character set a generated bearer credential draws from.
pub open spec fn token_charset() -> Seq<char> {
    "ABCDEFGHIJKLMNOPQRSTUVWXYZabcdefghijklmnopqrstuvwxyz0123456789"@
}

/// The exact header line a caller must present: the scheme word, one
/// space, then the shared credential.
pub open spec fn bearer_line(token: Seq<char>) -> Seq<char> {
    "Bearer "@ + token
}

/// Decides the credential gate of a protected request: accepted exactly
/// when an authorization header is present and equals the bearer line of
/// the configured token; a missing or differing header is rejected.
pub fn authorize(header: Option<&String>, token: &String) -> (ok: bool)
    ensures
        ok <==> (header matches Some(h) && h@ == bearer_line(token@)),
{
    match header {
        None => false,
        Some(h) => {
            let mut expected = String::from_str("Bearer ");
            expected.append(token.as_str());
            *h == expected
        },
    }
}

/// Relies on rand's thread_rng and Rng::gen_range: a draw below the given
/// bound. The draw is random; nothing beyond its range is stated.
#[verifier::external_body]
fn random_below(bound: usize) -> (r: usize)
    requires
        bound > 0,
    ensures
        r < bound,
{
    rand::Rng::gen_range(&mut rand::thread_rng(), 0..bound)
}

/// Generates a fresh process-lifetime bearer credential: 32 characters,
/// each drawn from the alphanumeric character set.
pub fn generate_bearer_token() -> (r: String)
    ensures
        r@.len() == 32,
        forall|i: int| 0 <= i < r@.len() ==> token_charset().contains(#[trigger] r@[i]),
{
    let charset = "ABCDEFGHIJKLMNOPQRSTUVWXYZabcdefghijklmnopqrstuvwxyz0123456789";
    proof {
        reveal_strlit("ABCDEFGHIJKLMNOPQRSTUVWXYZabcdefghijklmnopqrstuvwxyz0123456789");
    }
    let mut out = String::new();
    let mut i: usize = 0;
    while i < 32
        invariant
            i <= 32,
            out@.len() == i,
            charset@ == token_charset(),
            charset@.len() == 62,
            forall|j: int| 0 <= j < i ==> token_charset().contains(#[trigger] out@[j]),
        decreases 32 - i,
    {
        let idx = random_below(62);
        let c = charset.get_char(idx);
        push_char(&mut out, c);
        proof {
            assert(token_charset().contains(c)) by {
                assert(token_charset()[idx as int] == c);
            }
        }
        i = i + 1;
    }
    out
}

} // verus!
