//! Issuing access and refresh tokens.
use crate::errors::{RepositoryError, ServiceError, ServiceErrorView};
use crate::service::auth::REFRESH_TOKEN_TTL_SECS;
use chrono::{DateTime, Utc};
use vstd::prelude::*;

verus! {

/// The earliest second since the Unix epoch that `chrono` represents
/// (January 1 of the year -262143, 00:00:00 UTC).
pub const MIN_UTC_SECS: i64 = -8334601228800;

/// The latest second since the Unix epoch that `chrono` represents
/// (December 31 of the year 262142, 23:59:59 UTC).
pub const MAX_UTC_SECS: i64 = 8210266876799;

/// The UTC time `unix_secs` seconds after the Unix epoch, written as
/// `YYYY-MM-DD HH:MM:SS`.
pub uninterp spec fn utc_text(unix_secs: int) -> Seq<char>;

/// `chrono::DateTime::<Utc>::from_timestamp` with no nanoseconds, written
/// with `format("%Y-%m-%d %H:%M:%S")`: the time as text, or `None` for a
/// second outside the range `chrono` represents.
#[verifier::external_body]
fn format_utc(unix_secs: i64) -> (r: Option<String>)
    ensures
        r is Some <==> MIN_UTC_SECS <= unix_secs <= MAX_UTC_SECS,
        r matches Some(s) ==> s@ == utc_text(unix_secs as int),
{
    match DateTime::<Utc>::from_timestamp(unix_secs, 0) {
        Some(t) => Some(t.format("%Y-%m-%d %H:%M:%S").to_string()),
        None => None,
    }
}

/// When a refresh token made at `now_unix_secs` (seconds since the Unix
/// epoch) expires: 24 hours later, as UTC text. `None` when that time lies
/// outside what `chrono` represents.
pub fn refresh_expiry(now_unix_secs: i64) -> (r: Option<String>)
    ensures
        r is Some <==> MIN_UTC_SECS <= now_unix_secs + REFRESH_TOKEN_TTL_SECS <= MAX_UTC_SECS,
        r matches Some(s) ==> s@ == utc_text(now_unix_secs + REFRESH_TOKEN_TTL_SECS),
{
    if now_unix_secs > MAX_UTC_SECS - REFRESH_TOKEN_TTL_SECS {
        return None;
    }
    format_utc(now_unix_secs + REFRESH_TOKEN_TTL_SECS)
}

/// What to ask the token signer for: a token of `kind` for `subject`.
pub struct TokenRequest {
    pub subject: i64,
    pub kind: &'static str,
}

/// The stored record of a refresh token.
pub struct CreateRefreshToken {
    pub user_id: i32,
    pub token: String,
    pub expires_at: String,
}

/// Issues tokens with a token signer and keeps refresh tokens in a repository.
pub struct TokenService<J, R> {
    pub token: J,
    pub refresh: R,
}

impl<J, R> TokenService<J, R> {
    /// The service over the given signer and refresh-token repository.
    pub fn new(token: J, refresh: R) -> (r: Self)
        ensures
            r.token == token,
            r.refresh == refresh,
    {
        TokenService { token, refresh }
    }

    /// An access token for user `id`: what to ask the signer for. A signing
    /// failure is handed on unchanged.
    pub fn create_access_token(&self, id: i32) -> (r: TokenRequest)
        ensures
            r.subject == id as i64,
            r.kind@ == "access"@,
    {
        TokenRequest { subject: id as i64, kind: "access" }
    }

    /// A refresh token for user `id`: what to ask the signer for. A signing
    /// failure is handed on unchanged; then the user's old refresh tokens are
    /// deleted (a failure there is ignored) and the new one is stored.
    pub fn create_refresh_token(&self, id: i32) -> (r: TokenRequest)
        ensures
            r.subject == id as i64,
            r.kind@ == "refresh"@,
    {
        TokenRequest { subject: id as i64, kind: "refresh" }
    }

    /// The record that stores a new refresh token of user `id`.
    pub fn refresh_record(&self, id: i32, token: String, expires_at: String) -> (r:
        CreateRefreshToken)
        ensures
            r.user_id == id,
            r.token@ == token@,
            r.expires_at@ == expires_at@,
    {
        CreateRefreshToken { user_id: id, token, expires_at }
    }

    /// After storing the new refresh token: the token, or the failure.
    pub fn create_refresh_token_after_store(
        &self,
        stored: Result<(), RepositoryError>,
        token: String,
    ) -> (r: Result<String, ServiceError>)
        ensures
            match stored {
                Ok(_) => r matches Ok(t) && t@ == token@,
                Err(e) => r matches Err(se) && se@ == ServiceErrorView::Repo(e@),
            },
    {
        match stored {
            Ok(_) => Ok(token),
            Err(e) => Err(ServiceError::Repo(e)),
        }
    }
}

} // verus!
