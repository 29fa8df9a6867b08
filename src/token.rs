//! Provider tokens, read from the JSON body of a token response. A token is
//! returned whole or not at all.
use vstd::prelude::*;
use crate::encoding::{json_member, json_member_of, JsonScalar};
use crate::json::opt_string;
use crate::oauth::AuthError;

verus! {

/// A token type that can be read from a JSON response body.
pub trait JsonToken: Sized {
    /// `body` holds every member the token needs, each of the right kind.
    spec fn json_readable(body: Seq<u8>) -> bool;

    /// `t` holds exactly the members of `body`.
    spec fn json_reads_as(body: Seq<u8>, t: Self) -> bool;

    fn from_json(body: &[u8]) -> (r: Result<Self, AuthError>)
        ensures
            r is Ok <==> Self::json_readable(body@),
            r is Ok ==> Self::json_reads_as(body@, r->Ok_0),
            r is Err ==> r->Err_0 == AuthError::DeserializationError,
    ;
}

/// The text member `key` of `body`.
pub open spec fn str_member(body: Seq<u8>, key: &str) -> Option<Seq<char>> {
    match json_member_of(body, key@) {
        Some(JsonScalar::Text(s)) => Some(s@),
        _ => None,
    }
}

/// The integer member `key` of `body`.
pub open spec fn u64_member(body: Seq<u8>, key: &str) -> Option<u64> {
    match json_member_of(body, key@) {
        Some(JsonScalar::Integer(n)) => Some(n),
        _ => None,
    }
}

/// The boolean member `key` of `body`.
pub open spec fn bool_member(body: Seq<u8>, key: &str) -> Option<bool> {
    match json_member_of(body, key@) {
        Some(JsonScalar::Flag(b)) => Some(b),
        _ => None,
    }
}

/// The text of a member that is text.
pub fn text_of(m: Option<JsonScalar>) -> (r: Option<String>)
    ensures
        match m {
            Some(JsonScalar::Text(s)) => r == Some(s),
            _ => r is None,
        },
{
    match m {
        Some(JsonScalar::Text(s)) => Some(s),
        _ => None,
    }
}

/// The value of a member that is an integer.
pub fn integer_of(m: Option<JsonScalar>) -> (r: Option<u64>)
    ensures
        match m {
            Some(JsonScalar::Integer(n)) => r == Some(n),
            _ => r is None,
        },
{
    match m {
        Some(JsonScalar::Integer(n)) => Some(n),
        _ => None,
    }
}

/// The value of a member that is a boolean.
pub fn flag_of(m: Option<JsonScalar>) -> (r: Option<bool>)
    ensures
        match m {
            Some(JsonScalar::Flag(b)) => r == Some(b),
            _ => r is None,
        },
{
    match m {
        Some(JsonScalar::Flag(b)) => Some(b),
        _ => None,
    }
}

pub open spec fn has_str(body: Seq<u8>, key: &str) -> bool {
    str_member(body, key) is Some
}

pub open spec fn str_is(body: Seq<u8>, key: &str, value: String) -> bool {
    str_member(body, key) == Some(value@)
}

/// A member that must be present.
fn required<T>(member: Option<T>) -> (r: Result<T, AuthError>)
    ensures
        match member {
            Some(v) => r == Ok::<T, AuthError>(v),
            None => r == Err::<T, AuthError>(AuthError::DeserializationError),
        },
{
    match member {
        Some(v) => Ok(v),
        None => Err(AuthError::DeserializationError),
    }
}

/// Pocket's token.
pub struct PocketToken {
    pub access_token: String,
    pub username: String,
}

impl JsonToken for PocketToken {
    open spec fn json_readable(body: Seq<u8>) -> bool {
        has_str(body, "access_token") && has_str(body, "username")
    }

    open spec fn json_reads_as(body: Seq<u8>, t: Self) -> bool {
        str_is(body, "access_token", t.access_token) && str_is(body, "username", t.username)
    }

    fn from_json(body: &[u8]) -> (r: Result<Self, AuthError>) {
        let access_token = text_of(json_member(body, "access_token"));
        let username = text_of(json_member(body, "username"));
        PocketToken::from_members(access_token, username)
    }
}

impl PocketToken {
    /// The token from its members, each present or not.
    pub fn from_members(access_token: Option<String>, username: Option<String>) -> (r: Result<Self, AuthError>)
        ensures
            r is Ok <==> access_token is Some && username is Some,
            r is Ok ==> opt_string(access_token) == Some(r->Ok_0.access_token@) && opt_string(username) == Some(
                r->Ok_0.username@,
            ),
            r is Err ==> r->Err_0 == AuthError::DeserializationError,
    {
        let access_token = required(access_token)?;
        let username = required(username)?;
        Ok(PocketToken { access_token, username })
    }
}

/// CenterDevice's token.
pub struct CenterDeviceToken {
    pub token_type: String,
    pub expires_in: u32,
    pub refresh_token: String,
    pub access_token: String,
}

impl CenterDeviceToken {
    /// How many whole days the token stays valid.
    pub fn expires_in_days(&self) -> (r: u32)
        ensures
            r == self.expires_in / 86400,
    {
        self.expires_in / 60 / 60 / 24
    }
}

impl JsonToken for CenterDeviceToken {
    open spec fn json_readable(body: Seq<u8>) -> bool {
        &&& has_str(body, "token_type")
        &&& u64_member(body, "expires_in") matches Some(n) && n <= u32::MAX
        &&& has_str(body, "refresh_token")
        &&& has_str(body, "access_token")
    }

    open spec fn json_reads_as(body: Seq<u8>, t: Self) -> bool {
        &&& str_is(body, "token_type", t.token_type)
        &&& u64_member(body, "expires_in") == Some(t.expires_in as u64)
        &&& str_is(body, "refresh_token", t.refresh_token)
        &&& str_is(body, "access_token", t.access_token)
    }

    fn from_json(body: &[u8]) -> (r: Result<Self, AuthError>) {
        let token_type = text_of(json_member(body, "token_type"));
        let expires_in = integer_of(json_member(body, "expires_in"));
        let refresh_token = text_of(json_member(body, "refresh_token"));
        let access_token = text_of(json_member(body, "access_token"));
        CenterDeviceToken::from_members(token_type, expires_in, refresh_token, access_token)
    }
}

impl CenterDeviceToken {
    /// The token from its members; the lifetime must fit in 32 bits.
    pub fn from_members(
        token_type: Option<String>,
        expires_in: Option<u64>,
        refresh_token: Option<String>,
        access_token: Option<String>,
    ) -> (r: Result<Self, AuthError>)
        ensures
            r is Ok <==> token_type is Some && (expires_in matches Some(n) && n <= u32::MAX) && refresh_token is Some
                && access_token is Some,
            r is Ok ==> {
                let t = r->Ok_0;
                &&& opt_string(token_type) == Some(t.token_type@)
                &&& expires_in == Some(t.expires_in as u64)
                &&& opt_string(refresh_token) == Some(t.refresh_token@)
                &&& opt_string(access_token) == Some(t.access_token@)
            },
            r is Err ==> r->Err_0 == AuthError::DeserializationError,
    {
        let token_type = required(token_type)?;
        let expires_in: u32 = match expires_in {
            Some(n) if n <= u32::MAX as u64 => n as u32,
            _ => return Err(AuthError::DeserializationError),
        };
        let refresh_token = required(refresh_token)?;
        let access_token = required(access_token)?;
        Ok(CenterDeviceToken { token_type, expires_in, refresh_token, access_token })
    }
}

/// Slack's token.
pub struct SlackToken {
    pub ok: bool,
    pub access_token: String,
    pub scope: String,
    pub user_id: String,
    pub team_name: String,
    pub team_id: String,
}

impl JsonToken for SlackToken {
    open spec fn json_readable(body: Seq<u8>) -> bool {
        &&& bool_member(body, "ok") is Some
        &&& has_str(body, "access_token")
        &&& has_str(body, "scope")
        &&& has_str(body, "user_id")
        &&& has_str(body, "team_name")
        &&& has_str(body, "team_id")
    }

    open spec fn json_reads_as(body: Seq<u8>, t: Self) -> bool {
        &&& bool_member(body, "ok") == Some(t.ok)
        &&& str_is(body, "access_token", t.access_token)
        &&& str_is(body, "scope", t.scope)
        &&& str_is(body, "user_id", t.user_id)
        &&& str_is(body, "team_name", t.team_name)
        &&& str_is(body, "team_id", t.team_id)
    }

    fn from_json(body: &[u8]) -> (r: Result<Self, AuthError>) {
        let members = SlackMembers {
            ok: flag_of(json_member(body, "ok")),
            access_token: text_of(json_member(body, "access_token")),
            scope: text_of(json_member(body, "scope")),
            user_id: text_of(json_member(body, "user_id")),
            team_name: text_of(json_member(body, "team_name")),
            team_id: text_of(json_member(body, "team_id")),
        };
        SlackToken::from_members(members)
    }
}

/// The members of a Slack token response, each present or not.
pub struct SlackMembers {
    pub ok: Option<bool>,
    pub access_token: Option<String>,
    pub scope: Option<String>,
    pub user_id: Option<String>,
    pub team_name: Option<String>,
    pub team_id: Option<String>,
}

impl SlackToken {
    /// The token from its members, each of which must be present.
    pub fn from_members(m: SlackMembers) -> (r: Result<Self, AuthError>)
        ensures
            r is Ok <==> m.ok is Some && m.access_token is Some && m.scope is Some && m.user_id is Some
                && m.team_name is Some && m.team_id is Some,
            r is Ok ==> {
                let t = r->Ok_0;
                &&& m.ok == Some(t.ok)
                &&& opt_string(m.access_token) == Some(t.access_token@)
                &&& opt_string(m.scope) == Some(t.scope@)
                &&& opt_string(m.user_id) == Some(t.user_id@)
                &&& opt_string(m.team_name) == Some(t.team_name@)
                &&& opt_string(m.team_id) == Some(t.team_id@)
            },
            r is Err ==> r->Err_0 == AuthError::DeserializationError,
    {
        let ok = required(m.ok)?;
        let access_token = required(m.access_token)?;
        let scope = required(m.scope)?;
        let user_id = required(m.user_id)?;
        let team_name = required(m.team_name)?;
        let team_id = required(m.team_id)?;
        Ok(SlackToken { ok, access_token, scope, user_id, team_name, team_id })
    }
}

/// A plain OAuth2 token: an access token and the refresh token that renews it.
pub struct OAuthToken {
    pub access_token: String,
    pub refresh_token: String,
}

impl JsonToken for OAuthToken {
    open spec fn json_readable(body: Seq<u8>) -> bool {
        has_str(body, "access_token") && has_str(body, "refresh_token")
    }

    open spec fn json_reads_as(body: Seq<u8>, t: Self) -> bool {
        str_is(body, "access_token", t.access_token) && str_is(body, "refresh_token", t.refresh_token)
    }

    fn from_json(body: &[u8]) -> (r: Result<Self, AuthError>) {
        let access_token = text_of(json_member(body, "access_token"));
        let refresh_token = text_of(json_member(body, "refresh_token"));
        OAuthToken::from_members(access_token, refresh_token)
    }
}

impl OAuthToken {
    /// The token from its members, each present or not.
    pub fn from_members(access_token: Option<String>, refresh_token: Option<String>) -> (r: Result<Self, AuthError>)
        ensures
            r is Ok <==> access_token is Some && refresh_token is Some,
            r is Ok ==> opt_string(access_token) == Some(r->Ok_0.access_token@) && opt_string(refresh_token) == Some(
                r->Ok_0.refresh_token@,
            ),
            r is Err ==> r->Err_0 == AuthError::DeserializationError,
    {
        let access_token = required(access_token)?;
        let refresh_token = required(refresh_token)?;
        Ok(OAuthToken { access_token, refresh_token })
    }
}

} // verus!
