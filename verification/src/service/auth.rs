//! Registration, login, profile and token refresh.
//!
//! Each operation alternates calls to repositories, the password hasher, the
//! token service and the cache with decisions; the decisions stand here, one
//! function per point at which the operation decides, and the caller performs
//! the calls in between.
use crate::errors::{RepositoryError, ServiceError, ServiceErrorView};
use crate::flow::{key_num, key_text, with_num, with_text, MINUTE_SECS};
use crate::response::{responds, success, ApiResponse};
use vstd::prelude::*;

verus! {

/// Failed logins after which further attempts are refused.
pub const MAX_LOGIN_ATTEMPTS: i32 = 5;

/// How long the failed-login count is kept, in seconds (15 minutes).
pub const LOGIN_ATTEMPTS_TTL_SECS: i64 = 15 * MINUTE_SECS;

/// How long a cached profile is kept, in seconds (30 minutes).
pub const PROFILE_TTL_SECS: i64 = 30 * MINUTE_SECS;

/// How long a refresh token lives, in seconds (24 hours).
pub const REFRESH_TOKEN_TTL_SECS: i64 = 24 * 60 * MINUTE_SECS;

/// A registration request.
pub struct RegisterRequest {
    pub firstname: String,
    pub lastname: String,
    pub email: String,
    pub password: String,
    pub confirm_password: String,
}

/// A login request.
pub struct AuthRequest {
    pub email: String,
    pub password: String,
}

/// The user row that registration creates.
pub struct CreateUserRequest {
    pub firstname: String,
    pub lastname: String,
    pub password: String,
    pub email: String,
    pub confirm_password: String,
}

/// The link between a new user and its role.
pub struct CreateUserRoleRequest {
    pub user_id: i32,
    pub role_id: i32,
}

/// The tokens handed out on login and refresh.
pub struct TokenResponse {
    pub access_token: String,
    pub refresh_token: String,
}

/// The dependencies of an [`AuthService`].
pub struct AuthServiceDeps<Q, Cm, H, R, UR, RC, J, Tk, C> {
    pub query: Q,
    pub command: Cm,
    pub hashing: H,
    pub role: R,
    pub user_role: UR,
    pub refresh_command: RC,
    pub jwt_config: J,
    pub token: Tk,
    pub cache_store: C,
}

/// Registration, login, profile and token refresh over the given user and
/// role repositories, hasher, token services and cache.
pub struct AuthService<Q, Cm, H, R, UR, RC, J, Tk, C> {
    pub query: Q,
    pub command: Cm,
    pub hashing: H,
    pub role: R,
    pub user_role: UR,
    pub refresh_command: RC,
    pub jwt_config: J,
    pub token: Tk,
    pub cache_store: C,
}

/// What the token checker says of a presented refresh token.
pub enum TokenCheck {
    /// The token is valid and names this user.
    Valid(i64),
    /// The token has expired.
    Expired,
    /// The token is not valid.
    Invalid,
}

/// What a token refresh does after checking the presented token.
pub enum RefreshStep {
    /// Delete the presented token, then issue new tokens for this user.
    Rotate(i64),
    /// Delete the presented token and the cache entry `cache_key` (whether
    /// those deletions work is not looked at), then answer with `error`.
    Discard { cache_key: String, error: ServiceError },
    /// Answer with this error; nothing is deleted.
    Refuse(ServiceError),
}

/// What a login does after looking at its failure count or at a check.
pub enum LoginStep {
    /// Look the user up by e-mail.
    LookupUser,
    /// Compare the password with the stored hash.
    CheckPassword,
    /// Forget the failure count, then issue an access and a refresh token.
    IssueTokens,
    /// Store `attempts` (when given) as the failure count for 15 minutes,
    /// then answer with `error`.
    Refuse { error: ServiceError, attempts: Option<i32> },
}

/// The number of failed logins already recorded: none when nothing is cached.
pub open spec fn attempts_of(cached: Option<i32>) -> int {
    match cached {
        Some(n) => n as int,
        None => 0,
    }
}

/// `step` refuses with a custom message and records `attempts`.
pub open spec fn refuses(step: LoginStep, error: ServiceErrorView, attempts: Option<i32>) -> bool {
    step matches LoginStep::Refuse { error: e, attempts: a } && e@ == error && a == attempts
}

impl<Q, Cm, H, R, UR, RC, J, Tk, C> AuthService<Q, Cm, H, R, UR, RC, J, Tk, C> {
    /// The service over the given dependencies.
    pub fn new(deps: AuthServiceDeps<Q, Cm, H, R, UR, RC, J, Tk, C>) -> (r: Self)
        ensures
            r.query == deps.query,
            r.command == deps.command,
            r.hashing == deps.hashing,
            r.role == deps.role,
            r.user_role == deps.user_role,
            r.refresh_command == deps.refresh_command,
            r.jwt_config == deps.jwt_config,
            r.token == deps.token,
            r.cache_store == deps.cache_store,
    {
        let AuthServiceDeps {
            query,
            command,
            hashing,
            role,
            user_role,
            refresh_command,
            jwt_config,
            token,
            cache_store,
        } = deps;
        AuthService {
            query,
            command,
            hashing,
            role,
            user_role,
            refresh_command,
            jwt_config,
            token,
            cache_store,
        }
    }

    /// The cache key under which a registration is remembered.
    pub fn registered_key(email: &str) -> (r: String)
        ensures
            r@ == key_text("auth:registered:"@, email@),
    {
        with_text("auth:registered:", email)
    }

    /// The answer when the cache already remembers the registration.
    pub fn register_user_from_cache<T>(cached: T) -> (r: ApiResponse<T>)
        ensures
            responds(r, "User already registered (from cache)"@, cached),
    {
        success(String::from_str("User already registered (from cache)"), cached)
    }

    /// After looking the e-mail up: a lookup failure is handed on, a taken
    /// e-mail refuses, a free one lets registration go on.
    pub fn register_user_after_lookup(found: Result<bool, RepositoryError>) -> (r: Result<
        (),
        ServiceError,
    >)
        ensures
            match found {
                Err(e) => r matches Err(se) && se@ == ServiceErrorView::Repo(e@),
                Ok(true) => r matches Err(se) && se@ == ServiceErrorView::Custom(
                    "Email already registered"@,
                ),
                Ok(false) => r is Ok,
            },
    {
        match found {
            Err(e) => Err(ServiceError::Repo(e)),
            Ok(true) => Err(ServiceError::Custom(String::from_str("Email already registered"))),
            Ok(false) => Ok(()),
        }
    }

    /// After hashing the password: a failure refuses, a hash goes on.
    pub fn register_user_after_hash<E>(hashed: Result<String, E>) -> (r: Result<
        String,
        ServiceError,
    >)
        ensures
            match hashed {
                Ok(h) => r matches Ok(x) && x@ == h@,
                Err(_) => r matches Err(se) && se@ == ServiceErrorView::InternalServerError(
                    "Failed to hash password"@,
                ),
            },
    {
        match hashed {
            Ok(h) => Ok(h),
            Err(_) => Err(
                ServiceError::InternalServerError(String::from_str("Failed to hash password")),
            ),
        }
    }

    /// The name of the role every new user receives.
    pub fn default_role_name() -> (r: &'static str)
        ensures
            r@ == "ROLE_ADMIN"@,
    {
        "ROLE_ADMIN"
    }

    /// After looking the default role up: its id, or a refusal.
    pub fn register_user_after_role(role: Result<Option<i32>, RepositoryError>) -> (r: Result<
        i32,
        ServiceError,
    >)
        ensures
            match role {
                Ok(Some(id)) => r == Ok::<i32, ServiceError>(id),
                Ok(None) => r matches Err(se) && se@ == ServiceErrorView::Custom(
                    "Default role not found"@,
                ),
                Err(e) => r matches Err(se) && se@ == ServiceErrorView::Repo(e@),
            },
    {
        match role {
            Ok(Some(id)) => Ok(id),
            Ok(None) => Err(ServiceError::Custom(String::from_str("Default role not found"))),
            Err(e) => Err(ServiceError::Repo(e)),
        }
    }

    /// The user row to create: the request with the password replaced by its
    /// hash.
    pub fn register_user_new_user(req: &RegisterRequest, hashed: String) -> (r: CreateUserRequest)
        ensures
            r.firstname@ == req.firstname@,
            r.lastname@ == req.lastname@,
            r.password@ == hashed@,
            r.email@ == req.email@,
            r.confirm_password@ == req.confirm_password@,
    {
        CreateUserRequest {
            firstname: req.firstname.clone(),
            lastname: req.lastname.clone(),
            password: hashed,
            email: req.email.clone(),
            confirm_password: req.confirm_password.clone(),
        }
    }

    /// After creating the user: the role link to create, or the failure.
    pub fn register_user_after_create(created: Result<i32, RepositoryError>, role_id: i32) -> (r:
        Result<CreateUserRoleRequest, ServiceError>)
        ensures
            match created {
                Ok(user_id) => r matches Ok(link) && link.user_id == user_id && link.role_id
                    == role_id,
                Err(e) => r matches Err(se) && se@ == ServiceErrorView::Repo(e@),
            },
    {
        match created {
            Ok(user_id) => Ok(CreateUserRoleRequest { user_id, role_id }),
            Err(e) => Err(ServiceError::Repo(e)),
        }
    }

    /// After linking the role: the answer with the new user, or the failure.
    pub fn register_user_after_assign<T>(assigned: Result<(), RepositoryError>, user: T) -> (r:
        Result<ApiResponse<T>, ServiceError>)
        ensures
            match assigned {
                Ok(_) => r matches Ok(resp) && responds(
                    resp,
                    "User registered successfully"@,
                    user,
                ),
                Err(e) => r matches Err(se) && se@ == ServiceErrorView::Repo(e@),
            },
    {
        match assigned {
            Ok(_) => Ok(success(String::from_str("User registered successfully"), user)),
            Err(e) => Err(ServiceError::Repo(e)),
        }
    }

    /// The cache key under which failed logins for an e-mail are counted.
    pub fn login_attempts_key(email: &str) -> (r: String)
        ensures
            r@ == key_text("auth:login_attempts:"@, email@),
    {
        with_text("auth:login_attempts:", email)
    }

    /// The first decision of a login, given the cached failure count: refuse
    /// once five failures are recorded, else look the user up.
    pub fn login_user_begin(cached_attempts: Option<i32>) -> (r: LoginStep)
        ensures
            login_locked(cached_attempts) ==> refuses(
                r,
                ServiceErrorView::Custom("Too many failed attempts. Try again later."@),
                None,
            ),
            !login_locked(cached_attempts) ==> r is LookupUser,
    {
        let attempts = match cached_attempts {
            Some(n) => n,
            None => 0,
        };
        if attempts >= MAX_LOGIN_ATTEMPTS {
            LoginStep::Refuse {
                error: ServiceError::Custom(
                    String::from_str("Too many failed attempts. Try again later."),
                ),
                attempts: None,
            }
        } else {
            LoginStep::LookupUser
        }
    }

    /// After looking the user up: an unknown e-mail counts as a failure, a
    /// lookup failure is handed on, a known user has its password checked.
    pub fn login_user_after_lookup(cached_attempts: Option<i32>, found: Result<
        bool,
        RepositoryError,
    >) -> (r: LoginStep)
        requires
            !login_locked(cached_attempts),
        ensures
            match found {
                Ok(true) => r is CheckPassword,
                Ok(false) => refuses(
                    r,
                    ServiceErrorView::Custom("user not found"@),
                    recorded_after_failure(cached_attempts),
                ),
                Err(e) => refuses(r, ServiceErrorView::Repo(e@), None),
            },
    {
        let attempts = match cached_attempts {
            Some(n) => n,
            None => 0,
        };
        match found {
            Ok(true) => LoginStep::CheckPassword,
            Ok(false) => LoginStep::Refuse {
                error: ServiceError::Custom(String::from_str("user not found")),
                attempts: Some(attempts + 1),
            },
            Err(e) => LoginStep::Refuse { error: ServiceError::Repo(e), attempts: None },
        }
    }

    /// After comparing the password: a match issues tokens, a mismatch counts
    /// as a failure.
    pub fn login_user_after_password(cached_attempts: Option<i32>, matches: bool) -> (r:
        LoginStep)
        requires
            !login_locked(cached_attempts),
        ensures
            matches ==> r is IssueTokens,
            !matches ==> refuses(
                r,
                ServiceErrorView::InvalidCredentials,
                recorded_after_failure(cached_attempts),
            ),
    {
        let attempts = match cached_attempts {
            Some(n) => n,
            None => 0,
        };
        if matches {
            LoginStep::IssueTokens
        } else {
            LoginStep::Refuse { error: ServiceError::InvalidCredentials, attempts: Some(attempts + 1) }
        }
    }

    /// The answer of a successful login.
    pub fn login_user_success(tokens: TokenResponse) -> (r: ApiResponse<TokenResponse>)
        ensures
            responds(r, "Login successful"@, tokens),
    {
        success(String::from_str("Login successful"), tokens)
    }

    /// The cache key of a user's profile.
    pub fn get_me_key(id: i32) -> (r: String)
        ensures
            r@ == key_num("auth:getme:"@, id as int),
    {
        with_num("auth:getme:", id as i64)
    }

    /// The answer when the profile is cached.
    pub fn get_me_from_cache<T>(cached: T) -> (r: ApiResponse<T>)
        ensures
            responds(r, "user fetched successfully (from cache)"@, cached),
    {
        success(String::from_str("user fetched successfully (from cache)"), cached)
    }

    /// After looking the user up: the answer (the profile is then cached for
    /// 30 minutes), or the failure handed on.
    pub fn get_me_after_lookup<T>(found: Result<T, RepositoryError>) -> (r: Result<
        ApiResponse<T>,
        ServiceError,
    >)
        ensures
            match found {
                Ok(u) => r matches Ok(resp) && responds(resp, "user fetched successfully"@, u),
                Err(e) => r matches Err(se) && se@ == ServiceErrorView::Repo(e@),
            },
    {
        match found {
            Ok(u) => Ok(success(String::from_str("user fetched successfully"), u)),
            Err(e) => Err(ServiceError::Repo(e)),
        }
    }

    /// The cache key that maps a refresh token to its user.
    pub fn refresh_key(token: &str) -> (r: String)
        ensures
            r@ == key_text("auth:refresh:"@, token@),
    {
        with_text("auth:refresh:", token)
    }

    /// After checking the presented refresh token `token`: a valid token
    /// goes on with its user; an expired one is discarded (the token and its
    /// cache entry are deleted) and refused with `TokenExpired`; any other
    /// is refused with "invalid token" and nothing is deleted.
    pub fn refresh_token_after_check(token: &str, check: TokenCheck) -> (r: RefreshStep)
        ensures
            match check {
                TokenCheck::Valid(id) => r == RefreshStep::Rotate(id),
                TokenCheck::Expired => r matches RefreshStep::Discard { cache_key, error }
                    && cache_key@ == key_text("auth:refresh:"@, token@) && error@
                    == ServiceErrorView::TokenExpired,
                TokenCheck::Invalid => r matches RefreshStep::Refuse(se) && se@
                    == ServiceErrorView::Custom("invalid token"@),
            },
    {
        match check {
            TokenCheck::Valid(id) => RefreshStep::Rotate(id),
            TokenCheck::Expired => RefreshStep::Discard {
                cache_key: Self::refresh_key(token),
                error: ServiceError::TokenExpired,
            },
            TokenCheck::Invalid => RefreshStep::Refuse(
                ServiceError::Custom(String::from_str("invalid token")),
            ),
        }
    }

    /// After deleting the old refresh token: its failure is handed on.
    pub fn refresh_token_after_delete(deleted: Result<(), RepositoryError>) -> (r: Result<
        (),
        ServiceError,
    >)
        ensures
            match deleted {
                Ok(_) => r is Ok,
                Err(e) => r matches Err(se) && se@ == ServiceErrorView::Repo(e@),
            },
    {
        match deleted {
            Ok(_) => Ok(()),
            Err(e) => Err(ServiceError::Repo(e)),
        }
    }

    /// The user id the new tokens are issued for (the low 32 bits of the id
    /// the token named).
    pub fn refresh_token_subject(user_id: i64) -> (r: i32)
        ensures
            r == user_id as i32,
    {
        #[verifier::truncate]
        (user_id as i32)
    }

    /// After storing the new refresh token: a failure refuses.
    pub fn refresh_token_after_update(updated: Result<(), RepositoryError>) -> (r: Result<
        (),
        ServiceError,
    >)
        ensures
            match updated {
                Ok(_) => r is Ok,
                Err(_) => r matches Err(se) && se@ == ServiceErrorView::Custom(
                    "Failed to update refresh token"@,
                ),
            },
    {
        match updated {
            Ok(_) => Ok(()),
            Err(_) => Err(ServiceError::Custom(String::from_str("Failed to update refresh token"))),
        }
    }

    /// The answer of a successful refresh.
    pub fn refresh_token_success(tokens: TokenResponse) -> (r: ApiResponse<TokenResponse>)
        ensures
            responds(r, "token refreshed"@, tokens),
    {
        success(String::from_str("token refreshed"), tokens)
    }
}

/// Whether a login that finds `cached` as the failure count is refused
/// before the user is looked up.
pub open spec fn login_locked(cached: Option<i32>) -> bool {
    attempts_of(cached) >= MAX_LOGIN_ATTEMPTS
}

/// The failure count a failed login (unknown e-mail or wrong password) stores
/// when it found `cached`.
pub open spec fn recorded_after_failure(cached: Option<i32>) -> Option<i32> {
    Some((attempts_of(cached) + 1) as i32)
}

/// The failure count after `n` failed logins in a row, starting from none
/// recorded, each of them let through to the password check or lookup.
pub open spec fn after_failed_logins(n: nat) -> Option<i32>
    decreases n,
{
    if n == 0 {
        None
    } else {
        recorded_after_failure(after_failed_logins((n - 1) as nat))
    }
}

/// Failed logins are counted one by one; logins stay open through the first
/// four failures, and the fifth locks the e-mail out.
pub proof fn law_five_failures_lock_out(n: nat)
    requires
        n <= MAX_LOGIN_ATTEMPTS,
    ensures
        attempts_of(after_failed_logins(n)) == n,
        login_locked(after_failed_logins(n)) <==> n == MAX_LOGIN_ATTEMPTS,
    decreases n,
{
    if n > 0 {
        law_five_failures_lock_out((n - 1) as nat);
    }
}

} // verus!
