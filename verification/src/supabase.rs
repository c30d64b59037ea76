//! The Supabase client: which HTTP requests the API sends to Supabase Auth and
//! PostgREST, and what it makes of the replies. Sending is left to the caller.

use vstd::prelude::*;
use vstd::string::*;

use crate::error::ApiError;
use crate::http_values::status_is_success;
use crate::ids::{uuid_text, uuid_to_string};
use crate::models::{Deleted, NewBackup, NewDevice, SupabaseUser};
use crate::text::{slash, strip_end, strip_start, trim_leading_slashes, trim_trailing_slashes};

verus! {

/// The HTTP methods the API uses towards Supabase.
#[derive(Debug, Clone, Copy, PartialEq, Eq)]
pub enum Method {
    Get,
    Post,
    Delete,
}

/// One request header.
#[derive(Debug, Clone, PartialEq, Eq)]
pub struct Header {
    pub name: String,
    pub value: String,
}

/// The names and values of a list of headers.
pub open spec fn header_pairs(headers: Seq<Header>) -> Seq<(Seq<char>, Seq<char>)> {
    headers.map_values(|h: Header| (h.name@, h.value@))
}

/// An HTTP request to Supabase; `body`, when present, is sent as JSON.
#[derive(Debug, Clone, PartialEq, Eq)]
pub struct RestRequest<B> {
    pub method: Method,
    pub url: String,
    pub headers: Vec<Header>,
    pub body: Option<B>,
}

/// What became of a request to Supabase.
#[derive(Debug, PartialEq, Eq)]
pub enum RestReply<T> {
    /// The request was not sent or no answer was read; the message says why.
    Unsent(String),
    /// Supabase answered with `status`; `text` is the body as text, `parsed`
    /// the body read as JSON, or why it could not be read.
    Answered { status: u16, text: String, parsed: Result<T, String> },
}

/// The JSON body of the `increment_fork_count` remote procedure call.
#[derive(Debug, Clone, Copy, PartialEq, Eq)]
pub struct ForkCountBody {
    pub backup_id: u128,
}

/// A client for one Supabase project: its base URL, without trailing slashes,
/// and its publishable (anon) key.
#[derive(Debug, Clone)]
pub struct SupabaseClient {
    base_url: String,
    anon_key: String,
}

/// The PostgREST URL of `path` under `base`: the path's leading slashes dropped.
pub open spec fn rest_url(base: Seq<char>, path: Seq<char>) -> Seq<char> {
    base + "/rest/v1/"@ + strip_start(path, slash())
}

/// The `Authorization` header that forwards an access token.
pub open spec fn bearer_header(access_token: Seq<char>) -> (Seq<char>, Seq<char>) {
    ("authorization"@, "Bearer "@ + access_token)
}

/// The base URL and the path meet at exactly one `/rest/v1/`: the client's
/// base URL keeps no trailing slash, the path no leading one, and a path with
/// or without a leading slash names the same URL.
pub proof fn lemma_rest_url_join(base: Seq<char>, path: Seq<char>)
    ensures
        strip_end(base, slash()).len() == 0 || strip_end(base, slash()).last() != '/',
        strip_start(path, slash()).len() == 0 || strip_start(path, slash())[0] != '/',
        rest_url(base, seq!['/'] + path) == rest_url(base, path),
        strip_end(strip_end(base, slash()), slash()) == strip_end(base, slash()),
{
    crate::text::lemma_strip_end_done(base, slash());
    crate::text::lemma_strip_start_done(path, slash());
    let slashed = seq!['/'] + path;
    assert(slashed[0] == '/');
    assert(slashed.drop_first() =~= path);
    assert(strip_start(slashed, slash()) == strip_start(path, slash()));
}

/// The result of a PostgREST reply: a transport failure or an unsuccessful
/// status is a `Supabase` error with its message or body text; otherwise the
/// parsed body, or a `Supabase` error that says why it could not be parsed.
pub open spec fn rest_result_of<T>(reply: RestReply<T>) -> Result<T, ApiError> {
    match reply {
        RestReply::Unsent(message) => Err(ApiError::Supabase(message)),
        RestReply::Answered { status, text, parsed } => if 200 <= status && status < 300 {
            match parsed {
                Ok(value) => Ok(value),
                Err(message) => Err(ApiError::Supabase(message)),
            }
        } else {
            Err(ApiError::Supabase(text))
        },
    }
}

/// The result of a delete: any successful status means the delete was
/// accepted, whatever the body (PostgREST answers `204` with none); a
/// transport failure or an unsuccessful status is a `Supabase` error.
pub open spec fn delete_result_of<T>(reply: RestReply<T>) -> Result<Deleted, ApiError> {
    match reply {
        RestReply::Unsent(message) => Err(ApiError::Supabase(message)),
        RestReply::Answered { status, text, parsed: _ } => if 200 <= status && status < 300 {
            Ok(Deleted { deleted: true })
        } else {
            Err(ApiError::Supabase(text))
        },
    }
}

/// The result of a Supabase Auth reply: the user when the reply is a success
/// and parses, `Unauthorized` otherwise.
pub open spec fn auth_result_of(reply: RestReply<SupabaseUser>) -> Result<SupabaseUser, ApiError> {
    match reply {
        RestReply::Answered { status, text: _, parsed: Ok(user) } => if 200 <= status && status
            < 300 {
            Ok(user)
        } else {
            Err(ApiError::Unauthorized)
        },
        _ => Err(ApiError::Unauthorized),
    }
}

/// The result of a lookup by id: the first row of the parsed reply, whatever
/// the status; a transport or parse failure is a `Supabase` error.
pub open spec fn lookup_result_of<T>(reply: RestReply<Vec<T>>) -> Result<Option<T>, ApiError> {
    match reply {
        RestReply::Unsent(message) => Err(ApiError::Supabase(message)),
        RestReply::Answered { status: _, text: _, parsed } => match parsed {
            Ok(rows) => if rows@.len() > 0 {
                Ok(Some(rows@[0]))
            } else {
                Ok(None)
            },
            Err(message) => Err(ApiError::Supabase(message)),
        },
    }
}

/// A PostgREST reply with a status in 200..300 whose body parsed is the parsed
/// value; one whose body did not parse is a `Supabase` error with the parse
/// message; any other status is a `Supabase` error with the body text,
/// whatever the body parsed to; an unsent request is a `Supabase` error with
/// its message.
pub proof fn law_rest_result<T>(reply: RestReply<T>)
    ensures
        reply matches RestReply::Answered { status, text: _, parsed: Ok(v) } ==> (200 <= status
            && status < 300 ==> rest_result_of(reply) == Ok::<T, ApiError>(v)),
        reply matches RestReply::Answered { status, text: _, parsed: Err(m) } ==> (200 <= status
            && status < 300 ==> rest_result_of(reply) == Err::<T, ApiError>(ApiError::Supabase(m))),
        reply matches RestReply::Answered { status, text, parsed: _ } ==> (!(200 <= status && status
            < 300) ==> rest_result_of(reply) == Err::<T, ApiError>(ApiError::Supabase(text))),
        reply matches RestReply::Unsent(m) ==> rest_result_of(reply) == Err::<T, ApiError>(
            ApiError::Supabase(m),
        ),
{
}

/// Authentication succeeds exactly when Supabase Auth answered with a status
/// in 200..300 and a readable user, and then yields that user; everything
/// else is `Unauthorized`.
pub proof fn law_authenticate_result(reply: RestReply<SupabaseUser>)
    ensures
        auth_result_of(reply) is Ok <==> (reply matches RestReply::Answered { status, text: _, parsed: Ok(_) }
            && 200 <= status && status < 300),
        reply matches RestReply::Answered { status: _, text: _, parsed: Ok(user) } ==> (
        auth_result_of(reply) is Ok ==> auth_result_of(reply) == Ok::<SupabaseUser, ApiError>(user)),
        auth_result_of(reply) is Err ==> auth_result_of(reply) == Err::<SupabaseUser, ApiError>(
            ApiError::Unauthorized,
        ),
{
}

/// A lookup by id finds the first row whenever the reply holds at least one
/// row, and finds nothing only when it holds none; the status does not matter.
pub proof fn law_lookup_result<T>(reply: RestReply<Vec<T>>)
    ensures
        reply matches RestReply::Answered { status: _, text: _, parsed: Ok(rows) } ==> (rows@.len()
            >= 1 ==> lookup_result_of(reply) == Ok::<Option<T>, ApiError>(Some(rows@[0]))),
        reply matches RestReply::Answered { status: _, text: _, parsed: Ok(rows) } ==> (
        lookup_result_of(reply) == Ok::<Option<T>, ApiError>(None) <==> rows@.len() == 0),
        reply matches RestReply::Answered { status: _, text: _, parsed: Err(m) }
            ==> lookup_result_of(reply) == Err::<Option<T>, ApiError>(ApiError::Supabase(m)),
        reply matches RestReply::Unsent(m) ==> lookup_result_of(reply) == Err::<
            Option<T>,
            ApiError,
        >(ApiError::Supabase(m)),
{
}

/// A delete is reported done exactly when Supabase answered with a status in
/// 200..300, whatever the body; otherwise it is a `Supabase` error with the
/// body text (or the transport message), whatever the body parsed to.
pub proof fn law_delete_result<T>(reply: RestReply<T>)
    ensures
        delete_result_of(reply) is Ok <==> (reply matches RestReply::Answered { status, text: _, parsed: _ }
            && 200 <= status && status < 300),
        delete_result_of(reply) is Ok ==> delete_result_of(reply) == Ok::<Deleted, ApiError>(
            Deleted { deleted: true },
        ),
        reply matches RestReply::Answered { status, text, parsed: _ } ==> (!(200 <= status && status
            < 300) ==> delete_result_of(reply) == Err::<Deleted, ApiError>(ApiError::Supabase(text))),
        reply matches RestReply::Unsent(m) ==> delete_result_of(reply) == Err::<Deleted, ApiError>(
            ApiError::Supabase(m),
        ),
{
}

impl SupabaseClient {
    /// The base URL, as the client holds it.
    pub closed spec fn base(self) -> Seq<char> {
        self.base_url@
    }

    /// The anon key, as the client holds it.
    pub closed spec fn key(self) -> Seq<char> {
        self.anon_key@
    }

    /// A client for the project at `base_url`; trailing slashes of the URL are dropped.
    pub fn new(base_url: String, anon_key: String) -> (r: Self)
        ensures
            r.base() == strip_end(base_url@, slash()),
            r.key() == anon_key@,
    {
        SupabaseClient { base_url: trim_trailing_slashes(base_url.as_str()), anon_key }
    }

    /// `self.base_url` followed by `suffix`.
    fn url_with(&self, suffix: &str) -> (r: String)
        ensures
            r@ == self.base() + suffix@,
    {
        let mut url = self.base_url.clone();
        url.append(suffix);
        url
    }

    /// The request that asks Supabase Auth who holds `access_token`.
    pub fn authenticate_request(&self, access_token: &str) -> (r: RestRequest<()>)
        ensures
            r.method == Method::Get,
            r.url@ == self.base() + "/auth/v1/user"@,
            header_pairs(r.headers@) == seq![bearer_header(access_token@), ("apikey"@, self.key())],
            r.body is None,
    {
        let url = self.url_with("/auth/v1/user");
        let mut headers: Vec<Header> = Vec::new();
        headers.push(bearer(access_token));
        headers.push(Header { name: String::from_str("apikey"), value: self.anon_key.clone() });
        proof {
            assert(header_pairs(headers@) =~= seq![bearer_header(access_token@), ("apikey"@, self.key())]);
        }
        RestRequest { method: Method::Get, url, headers, body: None }
    }

    /// The outcome of authentication: the user Supabase Auth names, or
    /// `Unauthorized` when the request failed, was refused or its answer is unreadable.
    pub fn authenticate_result(reply: RestReply<SupabaseUser>) -> (r: Result<SupabaseUser, ApiError>)
        ensures
            r == auth_result_of(reply),
    {
        match reply {
            RestReply::Answered { status, text: _, parsed: Ok(user) } => {
                if status_is_success(status) {
                    Ok(user)
                } else {
                    Err(ApiError::Unauthorized)
                }
            },
            _ => Err(ApiError::Unauthorized),
        }
    }

    /// The PostgREST request for `path`, forwarding the caller's access token;
    /// a request with a body asks for the written rows back.
    pub fn request<B>(&self, method: Method, path: &str, access_token: &str, body: Option<B>) -> (r:
        RestRequest<B>)
        ensures
            r.method == method,
            r.url@ == rest_url(self.base(), path@),
            header_pairs(r.headers@) == seq![
                bearer_header(access_token@),
                ("apikey"@, self.key()),
                ("content-type"@, "application/json"@),
            ] + if body is Some {
                seq![("prefer"@, "return=representation"@)]
            } else {
                Seq::empty()
            },
            r.body == body,
    {
        let mut url = self.url_with("/rest/v1/");
        let rest = trim_leading_slashes(path);
        url.append(rest.as_str());
        let mut headers: Vec<Header> = Vec::new();
        headers.push(bearer(access_token));
        headers.push(Header { name: String::from_str("apikey"), value: self.anon_key.clone() });
        headers.push(
            Header {
                name: String::from_str("content-type"),
                value: String::from_str("application/json"),
            },
        );
        let ghost common = header_pairs(headers@);
        if body.is_some() {
            headers.push(
                Header {
                    name: String::from_str("prefer"),
                    value: String::from_str("return=representation"),
                },
            );
        }
        proof {
            assert(common =~= seq![
                bearer_header(access_token@),
                ("apikey"@, self.key()),
                ("content-type"@, "application/json"@),
            ]);
            if body is Some {
                assert(header_pairs(headers@) =~= common + seq![("prefer"@, "return=representation"@)]);
            } else {
                assert(header_pairs(headers@) =~= common + Seq::empty());
            }
        }
        RestRequest { method, url, headers, body }
    }

    /// A `GET` of `path`.
    pub fn get(&self, path: &str, access_token: &str) -> (r: RestRequest<()>)
        ensures
            r.method == Method::Get,
            r.url@ == rest_url(self.base(), path@),
            header_pairs(r.headers@) == seq![
                bearer_header(access_token@),
                ("apikey"@, self.key()),
                ("content-type"@, "application/json"@),
            ],
            r.body is None,
    {
        let r = self.request(Method::Get, path, access_token, None);
        assert(header_pairs(r.headers@) =~= seq![
            bearer_header(access_token@),
            ("apikey"@, self.key()),
            ("content-type"@, "application/json"@),
        ]);
        r
    }

    /// A `POST` of `body` to `path`, asking for the written rows back.
    pub fn post<B>(&self, path: &str, access_token: &str, body: B) -> (r: RestRequest<B>)
        ensures
            r.method == Method::Post,
            r.url@ == rest_url(self.base(), path@),
            header_pairs(r.headers@) == seq![
                bearer_header(access_token@),
                ("apikey"@, self.key()),
                ("content-type"@, "application/json"@),
                ("prefer"@, "return=representation"@),
            ],
            r.body == Some(body),
    {
        let r = self.request(Method::Post, path, access_token, Some(body));
        assert(header_pairs(r.headers@) =~= seq![
            bearer_header(access_token@),
            ("apikey"@, self.key()),
            ("content-type"@, "application/json"@),
            ("prefer"@, "return=representation"@),
        ]);
        r
    }

    /// A `DELETE` of `path`.
    pub fn delete(&self, path: &str, access_token: &str) -> (r: RestRequest<()>)
        ensures
            r.method == Method::Delete,
            r.url@ == rest_url(self.base(), path@),
            header_pairs(r.headers@) == seq![
                bearer_header(access_token@),
                ("apikey"@, self.key()),
                ("content-type"@, "application/json"@),
            ],
            r.body is None,
    {
        let r = self.request(Method::Delete, path, access_token, None);
        assert(header_pairs(r.headers@) =~= seq![
            bearer_header(access_token@),
            ("apikey"@, self.key()),
            ("content-type"@, "application/json"@),
        ]);
        r
    }

    /// What a PostgREST reply comes to.
    pub fn rest_result<T>(reply: RestReply<T>) -> (r: Result<T, ApiError>)
        ensures
            r == rest_result_of(reply),
            reply matches RestReply::Answered { status, text: _, parsed: Ok(v) } ==> (200 <= status
                && status < 300 ==> r == Ok::<T, ApiError>(v)),
            reply matches RestReply::Answered { status, text: _, parsed: Err(m) } ==> (200 <= status
                && status < 300 ==> r == Err::<T, ApiError>(ApiError::Supabase(m))),
            reply matches RestReply::Answered { status, text, parsed: _ } ==> (!(200 <= status
                && status < 300) ==> r == Err::<T, ApiError>(ApiError::Supabase(text))),
            reply matches RestReply::Unsent(m) ==> r == Err::<T, ApiError>(ApiError::Supabase(m)),
    {
        match reply {
            RestReply::Unsent(message) => Err(ApiError::Supabase(message)),
            RestReply::Answered { status, text, parsed } => {
                if !status_is_success(status) {
                    return Err(ApiError::Supabase(text));
                }
                match parsed {
                    Ok(value) => Ok(value),
                    Err(message) => Err(ApiError::Supabase(message)),
                }
            },
        }
    }

    /// What a delete reply comes to: `{"deleted": true}` on any successful
    /// status, even when no row matched or no body came back.
    pub fn delete_result<T>(reply: RestReply<T>) -> (r: Result<Deleted, ApiError>)
        ensures
            r == delete_result_of(reply),
            reply matches RestReply::Answered { status, text: _, parsed: _ } ==> (200 <= status
                && status < 300 ==> r == Ok::<Deleted, ApiError>(Deleted { deleted: true })),
            reply matches RestReply::Answered { status, text, parsed: _ } ==> (!(200 <= status
                && status < 300) ==> r == Err::<Deleted, ApiError>(ApiError::Supabase(text))),
            reply matches RestReply::Unsent(m) ==> r == Err::<Deleted, ApiError>(
                ApiError::Supabase(m),
            ),
    {
        match reply {
            RestReply::Unsent(message) => Err(ApiError::Supabase(message)),
            RestReply::Answered { status, text, parsed: _ } => {
                if status_is_success(status) {
                    Ok(Deleted { deleted: true })
                } else {
                    Err(ApiError::Supabase(text))
                }
            },
        }
    }

    /// The insert of a device row into the `devices` table.
    pub fn insert_device(&self, access_token: &str, row: NewDevice) -> (r: RestRequest<NewDevice>)
        ensures
            r.method == Method::Post,
            r.url@ == rest_url(self.base(), "devices"@),
            header_pairs(r.headers@) == seq![
                bearer_header(access_token@),
                ("apikey"@, self.key()),
                ("content-type"@, "application/json"@),
                ("prefer"@, "return=representation"@),
            ],
            r.body == Some(row),
    {
        self.post("devices", access_token, row)
    }

    /// The insert of a backup row into the `backups` table.
    pub fn insert_backup(&self, access_token: &str, row: NewBackup) -> (r: RestRequest<NewBackup>)
        ensures
            r.method == Method::Post,
            r.url@ == rest_url(self.base(), "backups"@),
            header_pairs(r.headers@) == seq![
                bearer_header(access_token@),
                ("apikey"@, self.key()),
                ("content-type"@, "application/json"@),
                ("prefer"@, "return=representation"@),
            ],
            r.body == Some(row),
    {
        self.post("backups", access_token, row)
    }

    /// The request that reads the backup `backup_id`, as far as the caller may see it.
    pub fn get_backup_by_id(&self, backup_id: u128, access_token: &str) -> (r: RestRequest<()>)
        ensures
            r.method == Method::Get,
            r.url@ == self.base() + "/rest/v1/backups?id=eq."@ + uuid_text(backup_id) + "&select=*"@,
            header_pairs(r.headers@) == seq![("apikey"@, self.key()), bearer_header(access_token@)],
            r.body is None,
    {
        self.lookup_request("/rest/v1/backups?id=eq.", backup_id, access_token)
    }

    /// The request that reads the device `device_id`, as far as the caller may see it.
    pub fn get_device_by_id(&self, device_id: u128, access_token: &str) -> (r: RestRequest<()>)
        ensures
            r.method == Method::Get,
            r.url@ == self.base() + "/rest/v1/devices?id=eq."@ + uuid_text(device_id) + "&select=*"@,
            header_pairs(r.headers@) == seq![("apikey"@, self.key()), bearer_header(access_token@)],
            r.body is None,
    {
        self.lookup_request("/rest/v1/devices?id=eq.", device_id, access_token)
    }

    /// A `GET` of `base_url + prefix + id + "&select=*"`.
    fn lookup_request(&self, prefix: &str, id: u128, access_token: &str) -> (r: RestRequest<()>)
        ensures
            r.method == Method::Get,
            r.url@ == self.base() + prefix@ + uuid_text(id) + "&select=*"@,
            header_pairs(r.headers@) == seq![("apikey"@, self.key()), bearer_header(access_token@)],
            r.body is None,
    {
        let mut url = self.url_with(prefix);
        let id_text = uuid_to_string(id);
        url.append(id_text.as_str());
        url.append("&select=*");
        let mut headers: Vec<Header> = Vec::new();
        headers.push(Header { name: String::from_str("apikey"), value: self.anon_key.clone() });
        headers.push(bearer(access_token));
        proof {
            assert(header_pairs(headers@) =~= seq![("apikey"@, self.key()), bearer_header(access_token@)]);
        }
        RestRequest { method: Method::Get, url, headers, body: None }
    }

    /// What a lookup by id comes to: its first row, if any.
    pub fn lookup_result<T>(reply: RestReply<Vec<T>>) -> (r: Result<Option<T>, ApiError>)
        ensures
            r == lookup_result_of(reply),
            reply matches RestReply::Answered { status: _, text: _, parsed: Ok(rows) } ==> (rows@.len()
                >= 1 ==> r == Ok::<Option<T>, ApiError>(Some(rows@[0]))),
            reply matches RestReply::Answered { status: _, text: _, parsed: Ok(rows) } ==> (rows@.len()
                == 0 ==> r == Ok::<Option<T>, ApiError>(None)),
            reply matches RestReply::Answered { status: _, text: _, parsed: Err(m) } ==> r == Err::<
                Option<T>,
                ApiError,
            >(ApiError::Supabase(m)),
            reply matches RestReply::Unsent(m) ==> r == Err::<Option<T>, ApiError>(
                ApiError::Supabase(m),
            ),
    {
        match reply {
            RestReply::Unsent(message) => Err(ApiError::Supabase(message)),
            RestReply::Answered { status: _, text: _, parsed } => match parsed {
                Ok(rows) => {
                    let mut rows = rows;
                    if rows.len() > 0 {
                        Ok(Some(rows.remove(0)))
                    } else {
                        Ok(None)
                    }
                },
                Err(message) => Err(ApiError::Supabase(message)),
            },
        }
    }

    /// The remote procedure call that adds one to the fork count of `backup_id`.
    /// It is sent with the anon key alone, and its outcome is not read.
    pub fn increment_fork_count(&self, backup_id: u128) -> (r: RestRequest<ForkCountBody>)
        ensures
            r.method == Method::Post,
            r.url@ == self.base() + "/rest/v1/rpc/increment_fork_count"@,
            header_pairs(r.headers@) == seq![("apikey"@, self.key())],
            r.body == Some(ForkCountBody { backup_id }),
    {
        let url = self.url_with("/rest/v1/rpc/increment_fork_count");
        let mut headers: Vec<Header> = Vec::new();
        headers.push(Header { name: String::from_str("apikey"), value: self.anon_key.clone() });
        proof {
            assert(header_pairs(headers@) =~= seq![("apikey"@, self.key())]);
        }
        RestRequest { method: Method::Post, url, headers, body: Some(ForkCountBody { backup_id }) }
    }
}

/// The `Authorization` header forwarding `access_token`.
fn bearer(access_token: &str) -> (h: Header)
    ensures
        (h.name@, h.value@) == bearer_header(access_token@),
{
    let mut value = String::from_str("Bearer ");
    value.append(access_token);
    Header { name: String::from_str("authorization"), value }
}

} // verus!
