//! Claims and their lifetimes, the cookies that carry tokens, the verdict
//! on what a request presents, and the hashing of passwords.

use crate::error::{outcome_view, AppError, AppErrorView};
use crate::role::{copy_roles, Role};
use crate::text::optional_view;
use crate::token::{open, opened, seal, sealed};
use vstd::prelude::*;

verus! {

/// The two kinds of token. Both are signed with the same key; only the kind
/// tells them apart.
#[derive(Clone, Copy, Debug, PartialEq, Eq, Structural)]
pub enum TokenType {
    Access,
    Refresh,
}

/// The payload of a signed token.
#[derive(Debug, PartialEq, Eq)]
pub struct Claims {
    /// The identity of the user.
    pub sub: u128,
    pub email: String,
    pub first_name: String,
    pub last_name: String,
    /// The second from which the token is no longer accepted.
    pub exp: u64,
    /// The second at which the token was issued.
    pub iat: u64,
    pub token_type: TokenType,
    pub roles: Vec<Role>,
}

/// The model of [`Claims`].
pub struct ClaimsView {
    pub sub: u128,
    pub email: Seq<char>,
    pub first_name: Seq<char>,
    pub last_name: Seq<char>,
    pub exp: u64,
    pub iat: u64,
    pub token_type: TokenType,
    pub roles: Seq<Role>,
}

impl View for Claims {
    type V = ClaimsView;

    open spec fn view(&self) -> ClaimsView {
        ClaimsView {
            sub: self.sub,
            email: self.email@,
            first_name: self.first_name@,
            last_name: self.last_name@,
            exp: self.exp,
            iat: self.iat,
            token_type: self.token_type,
            roles: self.roles@,
        }
    }
}

impl Clone for Claims {
    fn clone(&self) -> (copy: Self)
        ensures
            copy@ == self@,
    {
        Claims {
            sub: self.sub,
            email: self.email.clone(),
            first_name: self.first_name.clone(),
            last_name: self.last_name.clone(),
            exp: self.exp,
            iat: self.iat,
            token_type: self.token_type,
            roles: copy_roles(&self.roles),
        }
    }
}

/// Seconds for which an access token is accepted.
pub const ACCESS_TTL: u64 = 15 * 60;

/// Seconds for which a refresh token is accepted.
pub const REFRESH_TTL: u64 = 7 * 24 * 60 * 60;

/// Seconds for which the browser keeps the access cookie.
pub const ACCESS_COOKIE_MAX_AGE: u64 = 30 * 60;

/// Seconds for which the browser keeps the refresh cookie.
pub const REFRESH_COOKIE_MAX_AGE: u64 = 30 * 24 * 60 * 60;

/// The lifetime of a token of the given kind, in seconds.
pub open spec fn ttl(kind: TokenType) -> u64 {
    match kind {
        TokenType::Access => ACCESS_TTL,
        TokenType::Refresh => REFRESH_TTL,
    }
}

/// The claims of a token of kind `kind` issued at `now` to `subject`. Of
/// `subject` only the identity, the names and the roles are read.
pub open spec fn issued(subject: ClaimsView, kind: TokenType, now: u64) -> ClaimsView {
    ClaimsView {
        sub: subject.sub,
        email: subject.email,
        first_name: subject.first_name,
        last_name: subject.last_name,
        exp: (now + ttl(kind)) as u64,
        iat: now,
        token_type: kind,
        roles: subject.roles,
    }
}

/// Whether a token with these claims is still accepted at `now`: only
/// before its expiry, no longer at the second of the expiry itself.
pub open spec fn live(claims: ClaimsView, now: u64) -> bool {
    now < claims.exp
}

/// The claims of the two tokens of one session.
#[derive(Debug, Clone, PartialEq, Eq)]
pub struct TokenPair {
    pub access: Claims,
    pub refresh: Claims,
}

impl Claims {
    /// Whether the token is still accepted at `now`.
    pub fn is_live(&self, now: u64) -> (yes: bool)
        ensures
            yes == live(self@, now),
    {
        now < self.exp
    }
}

/// Calls `chrono::Utc::now` and reads the result as whole seconds since the
/// Unix epoch. The clock decides the value. A system clock that stands
/// before the epoch is a failure of the machine: the call does not return.
#[verifier::external_body]
fn unix_seconds() -> i64 {
    chrono::Utc::now().timestamp()
}

/// The time that the clock shows, in whole seconds since the Unix epoch:
/// the time that the reading of the clock stands for.
pub(crate) fn clock() -> (now: u64)
    ensures
        exists|seconds: i64| now == #[trigger] since_epoch(seconds),
{
    let seconds = unix_seconds();
    let now = seconds_since_epoch(seconds);
    assert(now == since_epoch(seconds));
    now
}

/// The time that a reading of the clock stands for: the reading itself, and
/// the epoch for a reading before it.
pub open spec fn since_epoch(seconds: i64) -> u64 {
    if seconds < 0 {
        0
    } else {
        seconds as u64
    }
}

/// Turns a reading of the clock, in whole seconds since the Unix epoch, into
/// the time that it stands for.
pub fn seconds_since_epoch(seconds: i64) -> (now: u64)
    ensures
        now == since_epoch(seconds),
{
    if seconds < 0 {
        0
    } else {
        seconds as u64
    }
}

/// Issues the claims of a token of kind `kind` at `now` to `subject`: the
/// identity, the names and the roles are those of `subject`, the expiry
/// lies the lifetime of the kind after `now`.
pub fn issue(subject: &Claims, kind: TokenType, now: u64) -> (claims: Claims)
    requires
        now + ttl(kind) <= u64::MAX,
    ensures
        claims@ == issued(subject@, kind, now),
{
    let lifetime = match kind {
        TokenType::Access => ACCESS_TTL,
        TokenType::Refresh => REFRESH_TTL,
    };
    Claims {
        sub: subject.sub,
        email: subject.email.clone(),
        first_name: subject.first_name.clone(),
        last_name: subject.last_name.clone(),
        exp: now + lifetime,
        iat: now,
        token_type: kind,
        roles: copy_roles(&subject.roles),
    }
}

/// Builds the claims of a fresh access token and a fresh refresh token for one
/// user, both issued at `now`.
pub fn generate_tokens_at(
    now: u64,
    sub: u128,
    email: String,
    first_name: String,
    last_name: String,
    roles: Vec<Role>,
) -> (pair: TokenPair)
    requires
        now + REFRESH_TTL <= u64::MAX,
    ensures
        pair.access@ == (ClaimsView {
            sub,
            email: email@,
            first_name: first_name@,
            last_name: last_name@,
            exp: (now + ACCESS_TTL) as u64,
            iat: now,
            token_type: TokenType::Access,
            roles: roles@,
        }),
        pair.refresh@ == (ClaimsView {
            exp: (now + REFRESH_TTL) as u64,
            token_type: TokenType::Refresh,
            ..pair.access@
        }),
        pair.refresh@ == issued(pair.access@, TokenType::Refresh, now),
        pair.access@ == issued(pair.access@, TokenType::Access, now),
{
    let subject = Claims {
        sub,
        email,
        first_name,
        last_name,
        exp: now,
        iat: now,
        token_type: TokenType::Access,
        roles,
    };
    TokenPair {
        access: issue(&subject, TokenType::Access, now),
        refresh: issue(&subject, TokenType::Refresh, now),
    }
}

/// Builds the claims of a fresh token pair for one user, issued at the time
/// that the clock shows. The pair is always made: no time that the clock can
/// show is so late that the expiry could not be written down.
pub fn generate_tokens(
    sub: u128,
    email: String,
    first_name: String,
    last_name: String,
    roles: Vec<Role>,
) -> (outcome: Result<TokenPair, AppError>)
    ensures
        outcome is Ok,
        outcome matches Ok(pair) ==> {
            &&& exists|seconds: i64| pair.access.iat == #[trigger] since_epoch(seconds)
            &&& pair.access@ == (ClaimsView {
                sub,
                email: email@,
                first_name: first_name@,
                last_name: last_name@,
                exp: (pair.access.iat + ACCESS_TTL) as u64,
                iat: pair.access.iat,
                token_type: TokenType::Access,
                roles: roles@,
            })
            &&& pair.refresh@ == (ClaimsView {
                exp: (pair.access.iat + REFRESH_TTL) as u64,
                token_type: TokenType::Refresh,
                ..pair.access@
            })
        },
{
    let now = clock();
    Ok(generate_tokens_at(now, sub, email, first_name, last_name, roles))
}

/// The site policy of a cookie.
#[derive(Clone, Copy, Debug, PartialEq, Eq, Structural)]
pub enum SameSite {
    Strict,
    Lax,
}

/// A cookie to be set on the response.
#[derive(Debug, Clone, PartialEq, Eq)]
pub struct Cookie {
    pub name: String,
    pub value: String,
    pub path: String,
    pub http_only: bool,
    pub same_site: SameSite,
    pub secure: bool,
    /// Seconds for which the browser keeps the cookie.
    pub max_age: u64,
}

/// The model of a [`Cookie`].
pub struct CookieView {
    pub name: Seq<char>,
    pub value: Seq<char>,
    pub path: Seq<char>,
    pub http_only: bool,
    pub same_site: SameSite,
    pub secure: bool,
    pub max_age: u64,
}

impl View for Cookie {
    type V = CookieView;

    open spec fn view(&self) -> CookieView {
        CookieView {
            name: self.name@,
            value: self.value@,
            path: self.path@,
            http_only: self.http_only,
            same_site: self.same_site,
            secure: self.secure,
            max_age: self.max_age,
        }
    }
}

/// The two cookies that carry a session.
#[derive(Debug, Clone, PartialEq, Eq)]
pub struct SessionCookies {
    pub access: Cookie,
    pub refresh: Cookie,
}

/// The name of the cookie that carries a token of the given kind.
pub open spec fn cookie_name(kind: TokenType) -> Seq<char> {
    match kind {
        TokenType::Access => "access_token"@,
        TokenType::Refresh => "refresh_token"@,
    }
}

/// Seconds for which the browser keeps the cookie of the given kind.
pub open spec fn cookie_max_age(kind: TokenType) -> u64 {
    match kind {
        TokenType::Access => ACCESS_COOKIE_MAX_AGE,
        TokenType::Refresh => REFRESH_COOKIE_MAX_AGE,
    }
}

/// The cookie that carries `token`: readable by the server only, sent with
/// same-site requests and top-level navigation, valid for every path.
pub open spec fn token_cookie(kind: TokenType, token: Seq<char>, secure: bool) -> CookieView {
    CookieView {
        name: cookie_name(kind),
        value: token,
        path: "/"@,
        http_only: true,
        same_site: SameSite::Lax,
        secure,
        max_age: cookie_max_age(kind),
    }
}

impl TokenType {
    /// The name of the cookie that carries a token of this kind.
    pub fn cookie(&self) -> (name: &'static str)
        ensures
            name@ == cookie_name(*self),
    {
        match self {
            TokenType::Access => "access_token",
            TokenType::Refresh => "refresh_token",
        }
    }
}

/// Wraps the two signed tokens of a session into their cookies. `secure`
/// says whether the cookies may travel over encrypted connections only, as
/// they must in production.
pub fn session_cookies(access_token: String, refresh_token: String, secure: bool) -> (cookies:
    SessionCookies)
    ensures
        cookies.access@ == token_cookie(TokenType::Access, access_token@, secure),
        cookies.refresh@ == token_cookie(TokenType::Refresh, refresh_token@, secure),
{
    SessionCookies {
        access: Cookie {
            name: String::from_str(TokenType::Access.cookie()),
            value: access_token,
            path: String::from_str("/"),
            http_only: true,
            same_site: SameSite::Lax,
            secure,
            max_age: ACCESS_COOKIE_MAX_AGE,
        },
        refresh: Cookie {
            name: String::from_str(TokenType::Refresh.cookie()),
            value: refresh_token,
            path: String::from_str("/"),
            http_only: true,
            same_site: SameSite::Lax,
            secure,
            max_age: REFRESH_COOKIE_MAX_AGE,
        },
    }
}

/// The cookies of a session whose tokens seal the payloads `access` and
/// `refresh` under `secret`; none where one of the two cannot be sealed.
pub open spec fn session_of(access: Seq<u8>, refresh: Seq<u8>, secret: Seq<u8>, secure: bool) -> Result<
    (CookieView, CookieView),
    AppErrorView,
> {
    match (sealed(access, secret), sealed(refresh, secret)) {
        (Some(access_token), Some(refresh_token)) => Ok(
            (
                token_cookie(TokenType::Access, access_token, secure),
                token_cookie(TokenType::Refresh, refresh_token, secure),
            ),
        ),
        _ => Err(AppErrorView::TokenCreation),
    }
}

/// Seals the two tokens of a session under `secret` and wraps them into
/// their cookies. `access` and `refresh` are the payloads of the tokens:
/// the claims of the pair, written as JSON. The cookies come back exactly
/// where both payloads can be sealed, and then they carry the tokens that
/// seal them, which open under the same secret.
pub fn session(access: &[u8], refresh: &[u8], secret: &[u8], secure: bool) -> (outcome: Result<
    SessionCookies,
    AppError,
>)
    ensures
        match outcome {
            Ok(cookies) => Ok((cookies.access@, cookies.refresh@)),
            Err(e) => Err(e@),
        } == session_of(access@, refresh@, secret@, secure),
        outcome matches Ok(cookies) ==> opened(cookies.access@.value, secret@) is Some && opened(
            cookies.refresh@.value,
            secret@,
        ) is Some,
{
    let access_token = match seal(access, secret) {
        Ok(token) => token,
        Err(e) => { return Err(e); },
    };
    let refresh_token = match seal(refresh, secret) {
        Ok(token) => token,
        Err(e) => { return Err(e); },
    };
    Ok(session_cookies(access_token, refresh_token, secure))
}

/// What a request presented in the cookie of a token.
#[derive(Debug, Clone, PartialEq, Eq)]
pub enum Presented {
    /// The request has no such cookie.
    Absent,
    /// The cookie holds no token of this service: it is malformed, its
    /// signature does not match, or its payload reads as no claims.
    Unreadable,
    /// The cookie holds a token of this service with these claims.
    Decoded(Claims),
}

/// The model of [`Presented`].
pub enum PresentedView {
    Absent,
    Unreadable,
    Decoded(ClaimsView),
}

impl View for Presented {
    type V = PresentedView;

    open spec fn view(&self) -> PresentedView {
        match self {
            Presented::Absent => PresentedView::Absent,
            Presented::Unreadable => PresentedView::Unreadable,
            Presented::Decoded(claims) => PresentedView::Decoded(claims@),
        }
    }
}

/// What a cookie presents before its payload is read: the bytes of the
/// payload, where the cookie is there and its token opens under `secret`;
/// else that the cookie is absent or unreadable.
pub open spec fn unsealed(cookie: Option<Seq<char>>, secret: Seq<u8>) -> Result<
    Seq<u8>,
    PresentedView,
> {
    match cookie {
        None => Err(PresentedView::Absent),
        Some(token) => match opened(token, secret) {
            Some(payload) => Ok(payload),
            None => Err(PresentedView::Unreadable),
        },
    }
}

impl Presented {
    /// Opens the token of a cookie under `secret`. `cookie` is the value of
    /// the cookie, if the request has it. What comes back is the payload of
    /// the token, to be read as claims, or what the request presents
    /// without one.
    pub fn payload(cookie: Option<&str>, secret: &[u8]) -> (outcome: Result<Vec<u8>, Presented>)
        ensures
            match outcome {
                Ok(payload) => Ok(payload@),
                Err(presented) => Err(presented@),
            } == unsealed(
                match cookie {
                    Some(token) => Some(token@),
                    None => None,
                },
                secret@,
            ),
    {
        match cookie {
            None => Err(Presented::Absent),
            Some(token) => match open(token, secret) {
                Ok(payload) => Ok(payload),
                Err(_) => Err(Presented::Unreadable),
            },
        }
    }

    /// What a request presents whose token opened: the claims that its
    /// payload reads as, or an unreadable token where it reads as none.
    pub fn read(claims: Option<Claims>) -> (presented: Presented)
        ensures
            presented@ == match claims {
                Some(claims) => PresentedView::Decoded(claims@),
                None => PresentedView::Unreadable,
            },
    {
        match claims {
            Some(claims) => Presented::Decoded(claims),
            None => Presented::Unreadable,
        }
    }
}

/// The verdict on a request that must carry a token of kind `required`. A
/// missing cookie is answered differently from a bad token; among bad
/// tokens nothing tells the forged from the expired or the wrong kind.
pub open spec fn verdict(presented: PresentedView, required: TokenType, now: u64) -> Result<
    ClaimsView,
    AppErrorView,
> {
    match presented {
        PresentedView::Absent => Err(AppErrorView::WrongCredentials),
        PresentedView::Unreadable => Err(AppErrorView::InvalidToken),
        PresentedView::Decoded(claims) => if claims.token_type == required && live(claims, now) {
            Ok(claims)
        } else {
            Err(AppErrorView::InvalidToken)
        },
    }
}

/// Decides at time `now` whether a request that must carry a token of kind
/// `required` is authenticated, and as whom.
pub fn authenticate(presented: Presented, required: TokenType, now: u64) -> (outcome: Result<
    Claims,
    AppError,
>)
    ensures
        outcome_view(outcome) == verdict(presented@, required, now),
{
    match presented {
        Presented::Absent => Err(AppError::WrongCredentials),
        Presented::Unreadable => Err(AppError::InvalidToken),
        Presented::Decoded(claims) => {
            if claims.token_type == required && claims.is_live(now) {
                Ok(claims)
            } else {
                Err(AppError::InvalidToken)
            }
        },
    }
}

/// An access token is accepted only before its expiry and only as an access
/// token. Claims that were issued at `issued_at` for access pass where
/// access is required exactly as long as `now` lies before their expiry,
/// and never where a refresh token is required. The same claims under the
/// kind of a refresh token are rejected where access is required, whenever
/// it is; and no claims at all pass at their expiry or after it.
pub proof fn access_accepted_only_live_and_as_access(
    subject: ClaimsView,
    issued_at: u64,
    now: u64,
)
    requires
        issued_at + REFRESH_TTL <= u64::MAX,
    ensures
        verdict(
            PresentedView::Decoded(issued(subject, TokenType::Access, issued_at)),
            TokenType::Access,
            now,
        ) is Ok <==> now < issued_at + ACCESS_TTL,
        verdict(
            PresentedView::Decoded(issued(subject, TokenType::Access, issued_at)),
            TokenType::Refresh,
            now,
        ) == Err::<ClaimsView, AppErrorView>(AppErrorView::InvalidToken),
        verdict(
            PresentedView::Decoded(
                ClaimsView {
                    token_type: TokenType::Refresh,
                    ..issued(subject, TokenType::Access, issued_at)
                },
            ),
            TokenType::Access,
            now,
        ) == Err::<ClaimsView, AppErrorView>(AppErrorView::InvalidToken),
        verdict(
            PresentedView::Decoded(issued(subject, TokenType::Refresh, issued_at)),
            TokenType::Access,
            now,
        ) == Err::<ClaimsView, AppErrorView>(AppErrorView::InvalidToken),
{
}

/// Whatever is presented, a request is authenticated only by claims of the
/// required kind that have not expired, and then as exactly those claims.
pub proof fn authenticated_only_by_live_claims_of_the_kind(
    presented: PresentedView,
    required: TokenType,
    now: u64,
)
    ensures
        verdict(presented, required, now) matches Ok(claims) ==> presented
            == PresentedView::Decoded(claims) && claims.token_type == required && now
            < claims.exp,
{
}

impl Claims {
    /// Authenticates a request by its access cookie, at the time that the
    /// clock shows.
    pub fn from_request_parts(presented: Presented) -> (outcome: Result<Claims, AppError>)
        ensures
            exists|seconds: i64|
                outcome_view(outcome) == verdict(
                    presented@,
                    TokenType::Access,
                    #[trigger] since_epoch(seconds),
                ),
    {
        authenticate(presented, TokenType::Access, clock())
    }
}

/// What the password hasher finds when it checks `password` against the
/// stored `hash`.
pub uninterp spec fn password_matches(hash: Seq<char>, password: Seq<char>) -> bool;

/// What `Argon2::hash_password` with the default parameters makes of a
/// password under a salt in its text form: the hash in its PHC text form,
/// or nothing where the hasher fails.
pub uninterp spec fn argon2_phc(password: Seq<char>, salt: Seq<char>) -> Option<Seq<char>>;

/// The most characters of a password under which a hash is owed: however
/// the characters are encoded, so many of them make fewer bytes than the
/// hasher takes at most.
pub const LONGEST_PASSWORD: usize = 0x3FFF_FFFF;

/// Calls `SaltString::generate` on the operating system's random source and
/// returns the salt in its text form. Chance decides the value. Of every
/// salt that comes back this holds: it is made of sixteen bytes, so the
/// hasher with its default parameters fails under it for no password but
/// one that is too long. A random source that fails is a failure of the
/// machine: the call does not return.
#[verifier::external_body]
fn fresh_salt() -> (salt: String)
    ensures
        forall|password: Seq<char>|
            password.len() <= LONGEST_PASSWORD ==> (#[trigger] argon2_phc(password, salt@))
                is Some,
{
    argon2::password_hash::SaltString::generate(
        &mut argon2::password_hash::rand_core::OsRng,
    ).as_str().to_owned()
}

/// Calls `Argon2::hash_password` with the default parameters and returns the
/// hash in its PHC text form, or nothing where the hasher fails: a function
/// of the password and the salt alone. A hash that comes back carries its
/// salt and parameters, and `Argon2::verify_password` accepts the same
/// password against it.
#[verifier::external_body]
fn argon2_hash(password: &str, salt: &str) -> (hash: Option<String>)
    ensures
        optional_view(hash) == argon2_phc(password@, salt@),
        hash matches Some(h) ==> password_matches(h@, password@),
{
    let salt = argon2::password_hash::SaltString::from_b64(salt).ok()?;
    let hash = argon2::PasswordHasher::hash_password(
        &argon2::Argon2::default(),
        password.as_bytes(),
        &salt,
    );
    hash.ok().map(|h| h.to_string())
}

/// Whether a text cannot be a stored hash for want of its first sign: a
/// hash in PHC form begins with `$`.
pub open spec fn headless(hash: Seq<char>) -> bool {
    hash.len() == 0 || hash[0] != '$'
}

/// Calls `Argon2::verify_password` on the parsed `hash`. A string that
/// `PasswordHash::new` does not parse matches no password; it parses none
/// that is empty or begins with another sign than `$`.
#[verifier::external_body]
fn argon2_verify(hash: &str, password: &str) -> (ok: bool)
    ensures
        ok == password_matches(hash@, password@),
        headless(hash@) ==> !ok,
{
    match argon2::PasswordHash::new(hash) {
        Ok(parsed) => argon2::PasswordVerifier::verify_password(
            &argon2::Argon2::default(),
            password.as_bytes(),
            &parsed,
        ).is_ok(),
        Err(_) => false,
    }
}

/// The answer to the hashing of a password under a salt: the hash that
/// the hasher makes, or an internal error where it makes none.
pub open spec fn hashed(password: Seq<char>, salt: Seq<char>) -> Result<Seq<char>, AppErrorView> {
    match argon2_phc(password, salt) {
        Some(hash) => Ok(hash),
        None => Err(AppErrorView::InternalServerError),
    }
}

/// Hashes a password under the salt that is given in its text form. The
/// hash carries the salt and the parameters: it verifies against the same
/// password with nothing else at hand.
pub fn hash_password_with(password: &str, salt: &str) -> (outcome: Result<String, AppError>)
    ensures
        outcome_view(outcome) == hashed(password@, salt@),
        outcome matches Ok(hash) ==> password_matches(hash@, password@),
{
    match argon2_hash(password, salt) {
        Some(hash) => Ok(hash),
        None => Err(AppError::InternalServerError),
    }
}

/// Hashes a password under a fresh random salt. A hash is owed for every
/// password of at most `LONGEST_PASSWORD` characters. The hash carries its
/// own salt and parameters: it verifies against the same password with
/// nothing else at hand.
pub fn hash_password(password: &str) -> (outcome: Result<String, AppError>)
    ensures
        exists|salt: Seq<char>| outcome_view(outcome) == #[trigger] hashed(password@, salt),
        outcome matches Ok(hash) ==> password_matches(hash@, password@),
        password@.len() <= LONGEST_PASSWORD ==> outcome is Ok,
{
    let salt = fresh_salt();
    let outcome = hash_password_with(password, salt.as_str());
    assert(outcome_view(outcome) == hashed(password@, salt@));
    outcome
}

/// Checks a password against a stored hash. A hash that cannot be read
/// matches nothing: no stored text, however damaged, makes the check fail
/// in another way than by answering no.
pub fn verify_password(hash: &str, password: &str) -> (ok: bool)
    ensures
        ok == password_matches(hash@, password@),
        headless(hash@) ==> !ok,
{
    argon2_verify(hash, password)
}

} // verus!
