use vstd::prelude::*;
use vstd::string::*;

use crate::models::User;
use crate::policy::Denial;
use crate::role::UserRole;
use crate::text::{is_ascii_graphic, is_piece_of, starts_with_text, trim_of, trimmed};

verus! {

/// The identity of a caller, as resolved from an account record.
#[derive(Debug, Clone, PartialEq)]
pub struct SessionUser {
    pub id: u128,
    pub wallet: String,
    pub name: Option<String>,
    pub role: UserRole,
    pub created_at: i64,
}

/// A login by wallet address.
#[derive(Debug, Clone, PartialEq)]
pub struct LoginRequest {
    pub wallet: String,
}

/// A wallet address offered as a bearer credential.
#[derive(Debug, Clone, PartialEq)]
pub struct BearerAuthRequest {
    pub wallet: String,
}

/// A caller authenticated by session cookie.
#[derive(Debug, Clone, PartialEq)]
pub struct AuthUser(pub SessionUser);

/// A caller authenticated by bearer credential.
#[derive(Debug, Clone, PartialEq)]
pub struct BearerAuthUser(pub SessionUser);

/// Why a credential does not resolve to an account.
#[derive(Debug, Clone, Copy, PartialEq, Eq, Structural)]
pub enum AuthFailure {
    MissingHeader,
    MalformedHeader,
    NotBearer,
    UnknownWallet,
    MissingCookie,
    InvalidToken,
    /// Cookie sessions are no longer accepted; callers must use a bearer
    /// credential.
    SessionsRetired,
}

impl AuthFailure {
    /// Every failure to authenticate is an `Unauthenticated` refusal.
    pub fn denial(&self) -> (d: Denial)
        ensures
            d == Denial::Unauthenticated,
    {
        Denial::Unauthenticated
    }
}

/// The session identity of an account record.
pub open spec fn session_of(user: User) -> SessionUser {
    SessionUser {
        id: user.id,
        wallet: user.wallet,
        name: user.name,
        role: user.role,
        created_at: user.created_at,
    }
}

/// Resolves the account found for a wallet. An unknown wallet is refused;
/// no account is ever created here.
pub fn login(account: Option<User>) -> (r: Result<SessionUser, AuthFailure>)
    ensures
        account is None <==> r == Err::<SessionUser, AuthFailure>(AuthFailure::UnknownWallet),
        account matches Some(u) ==> r == Ok::<SessionUser, AuthFailure>(session_of(u)),
{
    match account {
        None => Err(AuthFailure::UnknownWallet),
        Some(user) => Ok(
            SessionUser {
                id: user.id,
                wallet: user.wallet,
                name: user.name,
                role: user.role,
                created_at: user.created_at,
            },
        ),
    }
}

/// The scheme that a bearer credential starts with.
pub open spec fn bearer_scheme() -> Seq<char> {
    "Bearer "@
}

/// The wallet address that an `Authorization` header value names: the text
/// after `"Bearer "`, without surrounding white space.
pub open spec fn bearer_wallet_of(header: Seq<char>) -> Result<Seq<char>, AuthFailure> {
    if header.len() >= 7 && header.subrange(0, 7) == bearer_scheme() {
        Ok(trim_of(header.subrange(7, header.len() as int)))
    } else {
        Err(AuthFailure::NotBearer)
    }
}

/// Reads the wallet address out of an `Authorization` header value. A missing
/// header, or one that does not use the bearer scheme, is refused.
pub fn bearer_wallet(header: Option<&str>) -> (r: Result<String, AuthFailure>)
    ensures
        header is None ==> r == Err::<String, AuthFailure>(AuthFailure::MissingHeader),
        header matches Some(h) ==> match (r, bearer_wallet_of(h@)) {
            (Ok(w), Ok(expected)) => w@ == expected,
            (Err(e), Err(expected)) => e == expected,
            _ => false,
        },
        header matches Some(h) ==> (r matches Ok(w) ==> {
            &&& is_piece_of(w@, h@.subrange(7, h@.len() as int))
            &&& h@.len() > 7 && is_ascii_graphic(h@[7]) && is_ascii_graphic(h@.last()) ==> w@
                == h@.subrange(7, h@.len() as int)
        }),
{
    match header {
        None => Err(AuthFailure::MissingHeader),
        Some(h) => {
            proof {
                reveal_strlit("Bearer ");
            }
            if starts_with_text(h, "Bearer ") {
                let n = h.unicode_len();
                let rest = h.substring_char(7, n);
                Ok(trimmed(rest))
            } else {
                Err(AuthFailure::NotBearer)
            }
        }
    }
}

/// Resolves a bearer caller from the account found for the wallet the
/// header names.
pub fn bearer_user(account: Option<User>) -> (r: Result<BearerAuthUser, AuthFailure>)
    ensures
        account is None <==> r == Err::<BearerAuthUser, AuthFailure>(AuthFailure::UnknownWallet),
        account matches Some(u) ==> r == Ok::<BearerAuthUser, AuthFailure>(BearerAuthUser(session_of(u))),
{
    match login(account) {
        Ok(user) => Ok(BearerAuthUser(user)),
        Err(e) => Err(e),
    }
}

/// What `uuid::Uuid::try_parse` reads from a text: the 128-bit value of the
/// identifier, or nothing where the text is not one.
pub uninterp spec fn uuid_value_of(text: Seq<char>) -> Option<u128>;

/// Relies on `uuid::Uuid::try_parse` and `Uuid::as_u128`: the value of an
/// identifier written in one of the accepted forms, which depends on the text
/// alone. The parser rejects an empty text by its length.
#[verifier::external_body]
fn parse_uuid(text: &str) -> (r: Option<u128>)
    ensures
        r == uuid_value_of(text@),
        text@.len() == 0 ==> r is None,
{
    uuid::Uuid::try_parse(text).ok().map(|u| u.as_u128())
}

/// The outcome of authenticating by session cookie, given the token the
/// session cookie holds, if any. Such sessions are retired: a well-formed
/// token is refused too, and only the reason differs.
pub open spec fn cookie_outcome(token: Option<Seq<char>>) -> AuthFailure {
    match token {
        None => AuthFailure::MissingCookie,
        Some(t) => if uuid_value_of(t) is None {
            AuthFailure::InvalidToken
        } else {
            AuthFailure::SessionsRetired
        },
    }
}

/// Authentication by session cookie, which is always refused; the reason
/// tells a missing or malformed token from a retired session.
pub fn session_from_cookie(token: Option<&str>) -> (r: Result<AuthUser, AuthFailure>)
    ensures
        r == Err::<AuthUser, AuthFailure>(
            cookie_outcome(
                match token {
                    Some(t) => Some(t@),
                    None => None,
                },
            ),
        ),
{
    match token {
        None => Err(AuthFailure::MissingCookie),
        Some(t) => {
            let parsed = parse_uuid(t);
            if parsed.is_none() {
                Err(AuthFailure::InvalidToken)
            } else {
                Err(AuthFailure::SessionsRetired)
            }
        }
    }
}

/// Admits administrators only.
pub fn require_admin_bearer(caller: BearerAuthUser) -> (r: Result<BearerAuthUser, Denial>)
    ensures
        caller.0.role == UserRole::Admin ==> r == Ok::<BearerAuthUser, Denial>(caller),
        caller.0.role != UserRole::Admin ==> r == Err::<BearerAuthUser, Denial>(Denial::InsufficientRole),
{
    if caller.0.role == UserRole::Admin {
        Ok(caller)
    } else {
        Err(Denial::InsufficientRole)
    }
}

/// Admits managers and administrators.
pub fn require_manager_or_admin_bearer(caller: BearerAuthUser) -> (r: Result<BearerAuthUser, Denial>)
    ensures
        caller.0.role != UserRole::User ==> r == Ok::<BearerAuthUser, Denial>(caller),
        caller.0.role == UserRole::User ==> r == Err::<BearerAuthUser, Denial>(Denial::InsufficientRole),
{
    match caller.0.role {
        UserRole::Admin | UserRole::Manager => Ok(caller),
        UserRole::User => Err(Denial::InsufficientRole),
    }
}

/// Admits administrators only.
pub fn require_admin_role(caller: AuthUser) -> (r: Result<AuthUser, Denial>)
    ensures
        caller.0.role == UserRole::Admin ==> r == Ok::<AuthUser, Denial>(caller),
        caller.0.role != UserRole::Admin ==> r == Err::<AuthUser, Denial>(Denial::InsufficientRole),
{
    if caller.0.role == UserRole::Admin {
        Ok(caller)
    } else {
        Err(Denial::InsufficientRole)
    }
}

/// Admits managers and administrators.
pub fn require_manager_or_admin_role(caller: AuthUser) -> (r: Result<AuthUser, Denial>)
    ensures
        caller.0.role != UserRole::User ==> r == Ok::<AuthUser, Denial>(caller),
        caller.0.role == UserRole::User ==> r == Err::<AuthUser, Denial>(Denial::InsufficientRole),
{
    match caller.0.role {
        UserRole::Admin | UserRole::Manager => Ok(caller),
        UserRole::User => Err(Denial::InsufficientRole),
    }
}

} // verus!
