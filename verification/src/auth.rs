//! Who is calling: the bearer token of a request and the caller it stands for.

use vstd::prelude::*;
use vstd::string::*;

use crate::error::ApiError;
use crate::http_values::{bytes_as_chars, header_text_ok, header_value_text, visible_header_byte};
use crate::models::{CurrentUser, SupabaseUser};
use crate::supabase::{auth_result_of, bearer_header, header_pairs, Method, RestReply, RestRequest, SupabaseClient};
use crate::text::{is_white_space, strip_end, strip_start, trim, trimmed, white_space};

verus! {

/// `http::Extensions`, the typed values attached to a request; opaque here.
#[verifier::external_type_specification]
#[verifier::external_body]
pub struct ExExtensions(http::Extensions);

/// The caller's Supabase access token, kept for forwarding to Supabase.
#[derive(Debug, Clone, PartialEq, Eq)]
pub struct AccessToken(pub String);

/// The token of an `Authorization` header text: what follows `Bearer `, trimmed,
/// when that is not empty.
pub open spec fn bearer_credentials(h: Seq<char>) -> Option<Seq<char>> {
    if h.len() >= 7 && h.take(7) == "Bearer "@ {
        let token = trimmed(h.skip(7));
        if token.len() > 0 {
            Some(token)
        } else {
            None
        }
    } else {
        None
    }
}

/// The bytes of an optional header value.
pub open spec fn header_bytes(header: Option<&[u8]>) -> Option<Seq<u8>> {
    match header {
        Some(h) => Some(h@),
        None => None,
    }
}

/// The bearer token carried by an optional `Authorization` header value: none
/// when the header is missing, is not tab-or-visible ASCII, or holds no bearer
/// credentials.
pub open spec fn bearer_token_of(header: Option<Seq<u8>>) -> Option<Seq<char>> {
    match header {
        Some(b) => if header_text_ok(b) {
            bearer_credentials(bytes_as_chars(b))
        } else {
            None
        },
        None => None,
    }
}

/// The bytes of `Bearer ` (with its space).
pub open spec fn bearer_scheme_bytes() -> Seq<u8> {
    seq![66u8, 101u8, 97u8, 114u8, 101u8, 114u8, 32u8]
}

/// A header of tab-or-visible ASCII that begins with `Bearer ` carries as its
/// token exactly the rest trimmed, whenever that is not empty: no other
/// condition, of length or content, applies.
pub proof fn law_bearer_token(b: Seq<u8>)
    requires
        header_text_ok(b),
        b.len() >= 7,
        bytes_as_chars(b).take(7) == "Bearer "@,
        trimmed(bytes_as_chars(b).skip(7)).len() > 0,
    ensures
        bearer_token_of(Some(b)) == Some(trimmed(bytes_as_chars(b).skip(7))),
{
}

/// A token is found only in a header of tab-or-visible ASCII that begins
/// with `Bearer ` exactly (case included), and it is the rest of the header
/// trimmed, never empty.
pub proof fn law_bearer_token_only(b: Seq<u8>)
    ensures
        bearer_token_of(Some(b)) is Some ==> {
            &&& header_text_ok(b)
            &&& b.len() >= 7
            &&& bytes_as_chars(b).take(7) == "Bearer "@
            &&& bearer_token_of(Some(b)) == Some(trimmed(bytes_as_chars(b).skip(7)))
            &&& trimmed(bytes_as_chars(b).skip(7)).len() > 0
        },
        bearer_token_of(None) is None,
{
}

/// A token sent as `Bearer <token>` is read back exactly, whatever its length,
/// when it is tab-or-visible ASCII that neither begins nor ends with white space.
pub proof fn law_bearer_round_trip(t: Seq<u8>)
    requires
        t.len() > 0,
        header_text_ok(t),
        !is_white_space(t[0] as char),
        !is_white_space(t.last() as char),
    ensures
        bearer_token_of(Some(bearer_scheme_bytes() + t)) == Some(bytes_as_chars(t)),
{
    let h = bearer_scheme_bytes() + t;
    assert forall|i: int| 0 <= i < h.len() implies visible_header_byte(#[trigger] h[i]) by {
        if i >= 7 {
            assert(h[i] == t[i - 7]);
        }
    }
    let c = bytes_as_chars(h);
    let x = bytes_as_chars(t);
    reveal_strlit("Bearer ");
    assert(c.take(7) =~= "Bearer "@);
    assert(c.skip(7) =~= x);
    assert(x[0] == t[0] as char);
    assert(x.last() == t.last() as char);
    assert(strip_start(x, white_space()) == x);
    assert(strip_end(x, white_space()) == x);
}

/// The bearer token of a request, from the raw bytes of its `Authorization`
/// header. A request without a usable token is answered `Unauthorized`.
pub fn bearer_token(header: Option<&[u8]>) -> (r: Result<AccessToken, ApiError>)
    ensures
        match bearer_token_of(header_bytes(header)) {
            Some(t) => r matches Ok(token) && token.0@ == t,
            None => r matches Err(e) && e == ApiError::Unauthorized,
        },
{
    let text = match header {
        Some(h) => header_value_text(h),
        None => None,
    };
    let text = match text {
        Some(t) => t,
        None => return Err(ApiError::Unauthorized),
    };
    let n = text.as_str().unicode_len();
    if n < 7 {
        return Err(ApiError::Unauthorized);
    }
    let prefix = String::from_str(text.as_str().substring_char(0, 7));
    let scheme = String::from_str("Bearer ");
    if !(prefix == scheme) {
        return Err(ApiError::Unauthorized);
    }
    let token = trim(text.as_str().substring_char(7, n));
    if token.as_str().unicode_len() == 0 {
        return Err(ApiError::Unauthorized);
    }
    proof {
        assert(text@.take(7) =~= text@.subrange(0, 7));
        assert(text@.skip(7) =~= text@.subrange(7, n as int));
    }
    Ok(AccessToken(token))
}

/// The caller that Supabase Auth identified.
pub fn current_user_of(user: SupabaseUser) -> (r: CurrentUser)
    ensures
        r.id == user.id,
        r.email == user.email,
{
    CurrentUser { id: user.id, email: user.email }
}

/// The start of authentication for a protected request: its bearer token and
/// the request that asks Supabase Auth who holds it.
/// A request without a usable token is answered `Unauthorized` and Supabase is
/// not asked.
pub fn require_auth(client: &SupabaseClient, header: Option<&[u8]>) -> (r: Result<
    (AccessToken, RestRequest<()>),
    ApiError,
>)
    ensures
        match bearer_token_of(header_bytes(header)) {
            None => r matches Err(e) && e == ApiError::Unauthorized,
            Some(t) => r matches Ok((token, request)) && token.0@ == t && request.method
                == Method::Get && request.url@ == client.base() + "/auth/v1/user"@
                && header_pairs(request.headers@) == seq![bearer_header(t), ("apikey"@, client.key())]
                && request.body is None,
        },
{
    let token = bearer_token(header)?;
    let request = client.authenticate_request(token.0.as_str());
    Ok((token, request))
}

/// What a protected request comes to once Supabase Auth has answered: it goes
/// on, with its caller and token, only when the answer confirms the token;
/// otherwise it is refused with `Unauthorized`, as `authenticate_result` decides.
pub fn confirm_caller(token: AccessToken, reply: RestReply<SupabaseUser>) -> (r: Result<
    (CurrentUser, AccessToken),
    ApiError,
>)
    ensures
        match auth_result_of(reply) {
            Ok(user) => r matches Ok((caller, kept)) && caller.id == user.id && caller.email
                == user.email && kept == token,
            Err(e) => r matches Err(x) && x == e,
        },
{
    let user = SupabaseClient::authenticate_result(reply)?;
    Ok((current_user_of(user), token))
}

/// What the callers stored in an `http::Extensions` are, as id and e-mail:
/// empty, or the one value of type `CurrentUser` that it holds.
pub uninterp spec fn stored_users(extensions: http::Extensions) -> Set<(u128, Option<Seq<char>>)>;

/// What the access tokens stored in an `http::Extensions` are: empty, or the
/// one value of type `AccessToken` that it holds.
pub uninterp spec fn stored_tokens(extensions: http::Extensions) -> Set<Seq<char>>;

/// A caller as id and e-mail text.
pub open spec fn user_entry(user: CurrentUser) -> (u128, Option<Seq<char>>) {
    (
        user.id,
        match user.email {
            Some(e) => Some(e@),
            None => None,
        },
    )
}

/// `http::Extensions::get::<CurrentUser>()`. Claimed, as the `http` source
/// shows (one value per type, found by its type): nothing comes back exactly
/// when no caller is stored, and what comes back is the stored caller.
#[verifier::external_body]
fn stored_current_user(extensions: &http::Extensions) -> (r: Option<&CurrentUser>)
    ensures
        r is None <==> stored_users(*extensions) == Set::<(u128, Option<Seq<char>>)>::empty(),
        r matches Some(user) ==> stored_users(*extensions) == set![user_entry(*user)],
{
    extensions.get::<CurrentUser>()
}

/// `http::Extensions::get::<AccessToken>()`. Claimed, as the `http` source
/// shows: nothing comes back exactly when no token is stored, and what comes
/// back is the stored token.
#[verifier::external_body]
fn stored_access_token(extensions: &http::Extensions) -> (r: Option<&AccessToken>)
    ensures
        r is None <==> stored_tokens(*extensions) == Set::<Seq<char>>::empty(),
        r matches Some(token) ==> stored_tokens(*extensions) == set![token.0@],
{
    extensions.get::<AccessToken>()
}

/// The caller stored in a request's extensions; `Unauthorized` when none is.
pub fn current_user(extensions: &http::Extensions) -> (r: Result<&CurrentUser, ApiError>)
    ensures
        r matches Err(e) ==> e == ApiError::Unauthorized,
        stored_users(*extensions) == Set::<(u128, Option<Seq<char>>)>::empty() ==> r is Err,
        stored_users(*extensions) != Set::<(u128, Option<Seq<char>>)>::empty() ==> (r matches Ok(
            user,
        ) && stored_users(*extensions) == set![user_entry(*user)]),
{
    match stored_current_user(extensions) {
        Some(user) => Ok(user),
        None => Err(ApiError::Unauthorized),
    }
}

/// The access token stored in a request's extensions; `Unauthorized` when none is.
pub fn access_token(extensions: &http::Extensions) -> (r: Result<&AccessToken, ApiError>)
    ensures
        r matches Err(e) ==> e == ApiError::Unauthorized,
        stored_tokens(*extensions) == Set::<Seq<char>>::empty() ==> r is Err,
        stored_tokens(*extensions) != Set::<Seq<char>>::empty() ==> (r matches Ok(token)
            && stored_tokens(*extensions) == set![token.0@]),
{
    match stored_access_token(extensions) {
        Some(token) => Ok(token),
        None => Err(ApiError::Unauthorized),
    }
}

} // verus!
