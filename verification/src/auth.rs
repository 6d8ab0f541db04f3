//! The login token: where it comes from and what is sent with each request.

use vstd::prelude::*;

verus! {

/// The key under which the browser's local storage keeps the login token.
pub open spec fn token_key() -> Seq<char> {
    "jwt_token"@
}

/// The key under which the login token is stored.
pub fn auth_token_key() -> (key: &'static str)
    ensures
        key@ == token_key(),
{
    "jwt_token"
}

/// The token to send with a request: the stored one, or the empty text when
/// none is stored.
pub fn get_auth_token(stored: Option<String>) -> (token: String)
    ensures
        token@ == match stored {
            Some(t) => t@,
            None => Seq::<char>::empty(),
        },
{
    match stored {
        Some(t) => t,
        None => String::new(),
    }
}

/// The scheme that the server's `authorization` header starts with.
pub open spec fn bearer_prefix() -> Seq<char> {
    "Bearer "@
}

/// The token of an `authorization` header `Bearer <token>`; nothing when the
/// header does not start that way.
pub fn bearer_token(header: &str) -> (token: Option<String>)
    ensures
        token is Some <==> bearer_prefix().is_prefix_of(header@),
        token matches Some(t) ==> t@ == header@.skip(bearer_prefix().len() as int),
{
    let prefix = "Bearer ";
    proof {
        reveal_strlit("Bearer ");
    }
    let n = header.unicode_len();
    let p = prefix.unicode_len();
    if n < p {
        return None;
    }
    let mut i: usize = 0;
    while i < p
        invariant
            p == prefix@.len(),
            n == header@.len(),
            p <= n,
            0 <= i <= p,
            prefix@ == bearer_prefix(),
            forall|j: int| 0 <= j < i ==> prefix@[j] == header@[j],
        decreases p - i,
    {
        if header.get_char(i) != prefix.get_char(i) {
            return None;
        }
        i = i + 1;
    }
    Some(String::from_str(header.substring_char(p, n)))
}

/// The token that a login response hands out, read from its `authorization`
/// header; nothing when the header is missing or not a bearer token.
pub fn login_token(authorization: Option<&str>) -> (token: Option<String>)
    ensures
        token is Some <==> (authorization matches Some(h) && bearer_prefix().is_prefix_of(h@)),
        token matches Some(t) ==> (authorization matches Some(h) && t@ == h@.skip(
            bearer_prefix().len() as int,
        )),
{
    match authorization {
        Some(h) => bearer_token(h),
        None => None,
    }
}

} // verus!
