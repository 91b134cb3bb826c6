//! Request authenticator: extracts a bearer token from the raw value of an
//! `Authorization` header and validates it, producing an authenticated
//! identity or one uniform rejection.

use vstd::prelude::*;
use crate::session::{
    validate_session, session_accepts, jwt_claims, jwt_of, AuthenticatedUser, AuthError,
};

verus! {

/// The exact scheme prefix a well-formed header starts with: `Bearer` and a
/// single space, case-sensitive.
pub open spec fn bearer_prefix() -> Seq<char> {
    seq!['B', 'e', 'a', 'r', 'e', 'r', ' ']
}

/// The token carried by a raw `Authorization` header value: the non-empty
/// remainder after the `Bearer ` prefix, or nothing when the header does not
/// have that shape.
pub open spec fn bearer_token_of(header: Seq<char>) -> Option<Seq<char>> {
    if header.len() > 7 && header.subrange(0, 7) == bearer_prefix() {
        Some(header.subrange(7, header.len() as int))
    } else {
        None
    }
}

/// Pull the bearer token out of a raw `Authorization` header value.
/// Headers without the case-sensitive `Bearer ` prefix, and headers whose
/// token part is empty, yield nothing.
pub fn extract_bearer_token<'a>(auth_str: &'a str) -> (r: Option<&'a str>)
    ensures
        match r {
            Some(t) => bearer_token_of(auth_str@) == Some(t@),
            None => bearer_token_of(auth_str@) is None,
        },
{
    proof {
        reveal_strlit("Bearer ");
        assert("Bearer "@ =~= bearer_prefix());
    }
    let n = auth_str.unicode_len();
    if n <= 7 {
        return None;
    }
    let prefix = "Bearer ";
    let mut i: usize = 0;
    while i < 7
        invariant
            i <= 7,
            7 < n == auth_str@.len(),
            prefix@ == bearer_prefix(),
            forall|j: int| 0 <= j < i ==> auth_str@[j] == bearer_prefix()[j],
        decreases 7 - i,
    {
        if auth_str.get_char(i) != prefix.get_char(i) {
            proof {
                assert(auth_str@.subrange(0, 7)[i as int] != bearer_prefix()[i as int]);
            }
            return None;
        }
        i += 1;
    }
    proof {
        assert(auth_str@.subrange(0, 7) =~= bearer_prefix());
    }
    Some(auth_str.substring_char(7, n))
}

/// Authenticate a request from the raw value of its `Authorization` header,
/// or its absence. The outcome is an iff over the header shape and what
/// the decoder recovers: a missing header, a header without the `Bearer `
/// shape, a carried token the decoder rejects, and an expired claim pair
/// all produce the same rejection; a recovered claim pair still in date
/// authenticates as its subject.
pub fn authenticate(header: Option<&str>, secret: &str, now: u64) -> (r: Result<
    AuthenticatedUser,
    AuthError,
>)
    ensures
        (match header {
            Some(h) => (match bearer_token_of(h@) {
                Some(t) => (match jwt_claims(t, secret@) {
                    Some(claims) => {
                        if now < claims.1 {
                            r == Ok::<AuthenticatedUser, AuthError>(
                                AuthenticatedUser { sub: claims.0 },
                            )
                        } else {
                            r is Err
                        }
                    },
                    None => r is Err,
                }),
                None => r is Err,
            }),
            None => r is Err,
        }),
        r is Err ==> r == Err::<AuthenticatedUser, AuthError>(AuthError::Invalid),
        header is None ==> r is Err,
        header matches Some(h) && bearer_token_of(h@) is None ==> r is Err,
        forall|sub: u128, exp: u64|
            header matches Some(h) && bearer_token_of(h@) == Some(
                #[trigger] jwt_of(sub, exp, secret@),
            ) && now < exp ==> r == Ok::<AuthenticatedUser, AuthError>(AuthenticatedUser { sub }),
        forall|sub: u128, exp: u64|
            header matches Some(h) && bearer_token_of(h@) == Some(
                #[trigger] jwt_of(sub, exp, secret@),
            ) && exp <= now ==> r is Err,
{
    match header {
        Some(h) => match extract_bearer_token(h) {
            Some(token) => {
                let r = validate_session(token, secret, now);
                proof {
                    assert forall|sub: u128, exp: u64|
                        bearer_token_of(h@) == Some(#[trigger] jwt_of(sub, exp, secret@)) && now
                            < exp implies r == Ok::<AuthenticatedUser, AuthError>(
                        AuthenticatedUser { sub },
                    ) by {
                        assert(token@ == jwt_of(sub, exp, secret@));
                        assert(session_accepts(token@, sub, exp, secret@, now));
                    };
                    assert forall|sub: u128, exp: u64|
                        bearer_token_of(h@) == Some(#[trigger] jwt_of(sub, exp, secret@)) && exp
                            <= now implies r is Err by {
                        assert(token@ == jwt_of(sub, exp, secret@));
                    };
                }
                r
            },
            None => Err(AuthError::Invalid),
        },
        None => Err(AuthError::Invalid),
    }
}

/// The malformed header shapes — empty, the bare scheme word, another
/// scheme, and the scheme with an empty token — carry no bearer token, so
/// the authenticator rejects each of them with the same value it uses for a
/// token that fails validation.
pub proof fn lemma_malformed_headers_rejected()
    ensures
        bearer_token_of(""@) is None,
        bearer_token_of("Bearer"@) is None,
        bearer_token_of("Basic abc"@) is None,
        bearer_token_of("Bearer "@) is None,
{
    reveal_strlit("");
    reveal_strlit("Bearer");
    reveal_strlit("Basic abc");
    reveal_strlit("Bearer ");
    assert(bearer_token_of("Basic abc"@) is None) by {
        let h = "Basic abc"@;
        if h.len() > 7 && h.subrange(0, 7) == bearer_prefix() {
            assert(h.subrange(0, 7)[1] == 'a');
            assert(bearer_prefix()[1] == 'e');
        }
    }
}

} // verus!
