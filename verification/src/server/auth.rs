//! Password hashing and the two kinds of token: short-lived access tokens
//! and refresh tokens that a per-user version can revoke.

use argon2::password_hash::rand_core::RngCore;
use vstd::prelude::*;
use vstd::string::StringExecFns;
use vstd::string::StringSliceAdditionalSpecFns;

use crate::server::clock::now_seconds;
use crate::server::ident::Id;
use crate::server::text::{after_prefix, strip_prefix};

verus! {

/// Length of a password hash in bytes.
pub const HASH_LEN: usize = 32;

/// Length of a generated salt in bytes.
pub const SALT_LEN: usize = 16;

/// The shortest salt that the hash function takes, in bytes.
pub const MIN_SALT_LEN: usize = 8;

/// The longest password, and the longest salt, that the hash function
/// takes, in bytes.
pub const MAX_HASH_INPUT_LEN: usize = 0xFFFF_FFFF;

/// Seconds an access token lives: fifteen minutes.
pub const ACCESS_TOKEN_LIFETIME: u64 = 900;

/// Seconds a refresh token lives: fourteen days.
pub const REFRESH_TOKEN_LIFETIME: u64 = 1209600;

/// The hash of a password, as stored.
#[derive(Debug, PartialEq, Eq)]
pub struct PasswordHash(Vec<u8>);

impl View for PasswordHash {
    type V = Seq<u8>;

    closed spec fn view(&self) -> Seq<u8> {
        self.0@
    }
}

impl Clone for PasswordHash {
    fn clone(&self) -> (copy: Self)
        ensures
            copy@ == self@,
    {
        PasswordHash(self.0.clone())
    }
}

impl core::ops::Deref for PasswordHash {
    type Target = [u8];

    fn deref(&self) -> (bytes: &[u8])
        ensures
            bytes@ == self@,
    {
        self.0.as_slice()
    }
}

impl From<Vec<u8>> for PasswordHash {
    fn from(value: Vec<u8>) -> (hash: Self)
        ensures
            hash@ == value@,
    {
        PasswordHash(value)
    }
}

impl vstd::std_specs::convert::FromSpecImpl<Vec<u8>> for PasswordHash {
    open spec fn obeys_from_spec() -> bool {
        true
    }

    closed spec fn from_spec(value: Vec<u8>) -> Self {
        PasswordHash(value)
    }
}

impl PasswordHash {
    /// The hash that holds exactly `bytes`.
    pub fn from_bytes(bytes: Vec<u8>) -> (hash: Self)
        ensures
            hash@ == bytes@,
    {
        PasswordHash(bytes)
    }

    /// Whether two hashes hold the same bytes.
    pub fn matches(&self, other: &PasswordHash) -> (same: bool)
        ensures
            same == (self@ == other@),
    {
        same_bytes(self.0.as_slice(), other.0.as_slice())
    }
}

/// The salt that went into a password hash.
#[derive(Debug)]
pub struct Salt(Vec<u8>);

impl View for Salt {
    type V = Seq<u8>;

    closed spec fn view(&self) -> Seq<u8> {
        self.0@
    }
}

impl Clone for Salt {
    fn clone(&self) -> (copy: Self)
        ensures
            copy@ == self@,
    {
        Salt(self.0.clone())
    }
}

impl core::ops::Deref for Salt {
    type Target = [u8];

    fn deref(&self) -> (bytes: &[u8])
        ensures
            bytes@ == self@,
    {
        self.0.as_slice()
    }
}

impl From<Vec<u8>> for Salt {
    fn from(value: Vec<u8>) -> (salt: Self)
        ensures
            salt@ == value@,
    {
        Salt(value)
    }
}

impl vstd::std_specs::convert::FromSpecImpl<Vec<u8>> for Salt {
    open spec fn obeys_from_spec() -> bool {
        true
    }

    closed spec fn from_spec(value: Vec<u8>) -> Self {
        Salt(value)
    }
}

impl Salt {
    /// The salt that holds exactly `bytes`.
    pub fn from_bytes(bytes: Vec<u8>) -> (salt: Self)
        ensures
            salt@ == bytes@,
    {
        Salt(bytes)
    }
}

/// Whether two byte strings are equal.
pub fn same_bytes(a: &[u8], b: &[u8]) -> (same: bool)
    ensures
        same == (a@ == b@),
{
    if a.len() != b.len() {
        return false;
    }
    let mut i: usize = 0;
    while i < a.len()
        invariant
            i <= a.len(),
            a.len() == b.len(),
            forall|k: int| 0 <= k < i ==> a@[k] == b@[k],
        decreases a.len() - i,
    {
        if a[i] != b[i] {
            return false;
        }
        i += 1;
    }
    assert(a@ =~= b@);
    true
}

/// What Argon2 with its default parameters (Argon2id, version 19) makes of
/// a password and a salt in 32 bytes: the hash, or `None` where it refuses
/// the input.
pub uninterp spec fn argon2_digest(password: Seq<u8>, salt: Seq<u8>) -> Option<Seq<u8>>;

/// `argon2::Argon2::hash_password_into` with the default parameters and a
/// buffer of 32 bytes: the filled buffer, or `None` where the function
/// refuses the input. The result is a function of password and salt alone
/// and a hash has 32 bytes. The function checks its input before it hashes:
/// it refuses a salt under 8 bytes, and it takes every password of up to
/// 0xFFFFFFFF bytes with a salt of 8 to 0xFFFFFFFF bytes.
#[verifier::external_body]
fn argon2_hash(password: &[u8], salt: &[u8]) -> (digest: Option<Vec<u8>>)
    ensures
        match digest {
            Some(bytes) => argon2_digest(password@, salt@) == Some(bytes@) && bytes@.len()
                == HASH_LEN,
            None => argon2_digest(password@, salt@) is None,
        },
        salt@.len() < MIN_SALT_LEN ==> digest is None,
        MIN_SALT_LEN <= salt@.len() <= MAX_HASH_INPUT_LEN && password@.len() <= MAX_HASH_INPUT_LEN
            ==> digest is Some,
{
    let mut buf = [0u8; 32];
    match argon2::Argon2::default().hash_password_into(password, salt, &mut buf) {
        Ok(_) => Some(buf.to_vec()),
        Err(_) => None,
    }
}

/// `OsRng::fill_bytes` on 16 bytes: a salt from the operating system's
/// random source. Only its length is claimed.
#[verifier::external_body]
fn random_salt() -> (salt: Vec<u8>)
    ensures
        salt@.len() == SALT_LEN,
{
    let mut buf = [0u8; 16];
    argon2::password_hash::rand_core::OsRng.fill_bytes(&mut buf);
    buf.to_vec()
}

/// The bytes that are hashed for a password: the password, then the server's
/// pepper.
pub open spec fn peppered(password: Seq<u8>, pepper: Seq<u8>) -> Seq<u8> {
    password + pepper
}

/// The hash of `password` under `pepper` and `salt`, or `None` where the
/// hash function refuses them.
pub open spec fn password_digest(password: Seq<u8>, pepper: Seq<u8>, salt: Seq<u8>) -> Option<
    Seq<u8>,
> {
    argon2_digest(peppered(password, pepper), salt)
}

/// The token that an `Authorization` header carries: what follows
/// `Bearer `, or nothing where the header is missing or begins otherwise.
pub open spec fn bearer_token_spec(header: Option<Seq<char>>) -> Option<Seq<char>> {
    match header {
        Some(text) => after_prefix(text, "Bearer "@),
        None => None,
    }
}

/// The text of a header, if there is one.
pub open spec fn header_text(header: Option<&str>) -> Option<Seq<char>> {
    match header {
        Some(text) => Some(text@),
        None => None,
    }
}

/// Takes the bearer token out of an `Authorization` header.
pub fn bearer_token<'a>(header: Option<&'a str>) -> (token: Option<&'a str>)
    ensures
        header_text(token) == bearer_token_spec(header_text(header)),
{
    match header {
        Some(text) => strip_prefix(text, "Bearer "),
        None => None,
    }
}

/// A token that proves who the bearer is, for a short time.
#[derive(Debug, Clone, Copy, PartialEq, Eq, Structural)]
pub struct AccessToken {
    pub exp: u64,
    pub sub: Id,
}

/// Why a request was not authenticated.
#[derive(Debug, Clone, Copy, PartialEq, Eq, Structural)]
pub enum AuthRejection {
    /// No bearer token, or one that does not decode.
    MissingOrInvalid,
    /// A token that decodes and has expired.
    TokenInvalid,
}

impl AuthRejection {
    /// The refusal in words.
    pub fn message(&self) -> (text: String)
        ensures
            text@ == match *self {
                AuthRejection::MissingOrInvalid => "Missing or invalid auth header"@,
                AuthRejection::TokenInvalid => "Token invalid"@,
            },
    {
        match self {
            AuthRejection::MissingOrInvalid => String::from_str("Missing or invalid auth header"),
            AuthRejection::TokenInvalid => String::from_str("Token invalid"),
        }
    }
}

impl AccessToken {
    /// Whether the token is still valid at second `now`.
    pub open spec fn valid_at(&self, now: u64) -> bool {
        self.exp > now
    }

    /// The token with the given claims.
    pub fn from_claims(exp: u64, sub: Id) -> (token: Self)
        ensures
            token.exp == exp,
            token.sub == sub,
    {
        AccessToken { exp, sub }
    }

    /// Whether the token has not expired by second `now`.
    pub fn is_valid_at(&self, now: u64) -> (valid: bool)
        ensures
            valid == self.valid_at(now),
    {
        self.exp > now
    }

    /// Whether the token has not expired by the system clock: the verdict
    /// of `is_valid_at` at the second that the clock shows.
    pub fn is_valid(&self) -> (valid: bool)
        ensures
            exists|now: u64| valid == #[trigger] self.valid_at(now),
            self.exp == 0 ==> !valid,
    {
        let now = now_seconds();
        let valid = self.is_valid_at(now);
        assert(valid == self.valid_at(now));
        valid
    }

    /// The token for `user_id` that is issued at second `now`: its expiry is
    /// fifteen minutes later, or the end of the clock's range.
    pub open spec fn issued_at_spec(user_id: Id, now: u64) -> AccessToken {
        AccessToken {
            sub: user_id,
            exp: if now + ACCESS_TOKEN_LIFETIME <= u64::MAX {
                (now + ACCESS_TOKEN_LIFETIME) as u64
            } else {
                u64::MAX
            },
        }
    }

    /// What a decoded bearer token is worth at second `now`: the token where
    /// it decoded and has not expired, else the reason it is refused.
    pub open spec fn judged(decoded: Option<AccessToken>, now: u64) -> Result<
        AccessToken,
        AuthRejection,
    > {
        match decoded {
            None => Err(AuthRejection::MissingOrInvalid),
            Some(token) => if token.valid_at(now) {
                Ok(token)
            } else {
                Err(AuthRejection::TokenInvalid)
            },
        }
    }

    /// A token for `user_id` issued at second `now`: it lives fifteen
    /// minutes, or to the end of the clock's range where that comes first.
    pub fn issued_at(user_id: Id, now: u64) -> (token: Self)
        ensures
            token == Self::issued_at_spec(user_id, now),
            now + ACCESS_TOKEN_LIFETIME <= u64::MAX ==> token.valid_at(now),
    {
        AccessToken { sub: user_id, exp: now.saturating_add(ACCESS_TOKEN_LIFETIME) }
    }

    /// What a decoded bearer token is worth now: the verdict of `judge` at
    /// the second that the clock shows. Without a token that decodes the
    /// request is refused whatever the time.
    pub fn authenticate(decoded: Option<AccessToken>) -> (outcome: Result<AccessToken, AuthRejection>)
        ensures
            exists|now: u64| outcome == #[trigger] Self::judged(decoded, now),
            decoded is None ==> outcome == Err::<AccessToken, AuthRejection>(
                AuthRejection::MissingOrInvalid,
            ),
    {
        let now = now_seconds();
        let outcome = Self::judge(decoded, now);
        assert(outcome == Self::judged(decoded, now));
        outcome
    }

    /// A token for `user_id` issued now, by the system clock.
    pub fn new(user_id: Id) -> (token: Self)
        ensures
            token.sub == user_id,
            exists|now: u64| token == #[trigger] Self::issued_at_spec(user_id, now),
    {
        let now = now_seconds();
        let token = Self::issued_at(user_id, now);
        assert(token == Self::issued_at_spec(user_id, now));
        token
    }

    /// What a decoded bearer token is worth at second `now`: the token where
    /// it decoded and has not expired, else the reason it is refused.
    pub fn judge(decoded: Option<AccessToken>, now: u64) -> (outcome: Result<AccessToken, AuthRejection>)
        ensures
            outcome == Self::judged(decoded, now),
    {
        match decoded {
            None => Err(AuthRejection::MissingOrInvalid),
            Some(token) => if token.is_valid_at(now) {
                Ok(token)
            } else {
                Err(AuthRejection::TokenInvalid)
            },
        }
    }
}

/// A token that can be traded for access tokens while the user's token
/// version is still the one it carries.
#[derive(Debug, Clone, Copy, PartialEq, Eq, Structural)]
pub struct RefreshToken {
    pub exp: u64,
    pub ver: Id,
    pub sub: Id,
}

impl RefreshToken {
    /// Whether the token is still valid at second `now`.
    pub open spec fn valid_at(&self, now: u64) -> bool {
        self.exp > now
    }

    /// Whether the token has not expired by second `now`.
    pub fn is_valid_at(&self, now: u64) -> (valid: bool)
        ensures
            valid == self.valid_at(now),
    {
        self.exp > now
    }

    /// Whether the token has not expired by the system clock: the verdict
    /// of `is_valid_at` at the second that the clock shows.
    pub fn is_valid(&self) -> (valid: bool)
        ensures
            exists|now: u64| valid == #[trigger] self.valid_at(now),
            self.exp == 0 ==> !valid,
    {
        let now = now_seconds();
        let valid = self.is_valid_at(now);
        assert(valid == self.valid_at(now));
        valid
    }

    /// A token for `sub` stamped with version `ver`, issued now, by the
    /// system clock.
    pub fn new(ver: Id, sub: Id) -> (token: Self)
        ensures
            token.ver == ver,
            token.sub == sub,
            exists|now: u64| token == #[trigger] Self::issued_at_spec(ver, sub, now),
    {
        let now = now_seconds();
        let token = Self::issued_at(ver, sub, now);
        assert(token == Self::issued_at_spec(ver, sub, now));
        token
    }

    /// The token for `sub` stamped `ver` that is issued at second `now`: its
    /// expiry is fourteen days later, or the end of the clock's range.
    pub open spec fn issued_at_spec(ver: Id, sub: Id, now: u64) -> RefreshToken {
        RefreshToken {
            exp: if now + REFRESH_TOKEN_LIFETIME <= u64::MAX {
                (now + REFRESH_TOKEN_LIFETIME) as u64
            } else {
                u64::MAX
            },
            ver,
            sub,
        }
    }

    /// A token for `sub` stamped with version `ver`, issued at second `now`:
    /// it lives fourteen days, or to the end of the clock's range where that
    /// comes first.
    pub fn issued_at(ver: Id, sub: Id, now: u64) -> (token: Self)
        ensures
            token == Self::issued_at_spec(ver, sub, now),
            now + REFRESH_TOKEN_LIFETIME <= u64::MAX ==> token.valid_at(now),
    {
        RefreshToken { exp: now.saturating_add(REFRESH_TOKEN_LIFETIME), ver, sub }
    }
}

/// Why a refresh token buys no access token.
#[derive(Debug, Clone, Copy, PartialEq, Eq, Structural)]
pub enum TokenError {
    /// The user's token version has moved on since the token was issued.
    Revoked,
    /// The token is past its expiry.
    Expired,
}

/// What a refresh token is worth at second `now`, given the version stored
/// for its user.
pub open spec fn access_outcome(refresh_token: RefreshToken, token_ver: Id, now: u64) -> Result<
    AccessToken,
    TokenError,
> {
    if token_ver != refresh_token.ver {
        Err(TokenError::Revoked)
    } else if !refresh_token.valid_at(now) {
        Err(TokenError::Expired)
    } else {
        Ok(AccessToken::issued_at_spec(refresh_token.sub, now))
    }
}

/// Hashing of passwords and minting of tokens.
pub struct Auth;

impl Auth {
    /// Hashes `password` with the server's `pepper` and a salt: the one
    /// given, or a fresh random one of 16 bytes. Returns the hash and the
    /// salt that was used, or `None` where the hash function refuses the
    /// input, as it does for a salt under 8 bytes. With a fresh salt, and
    /// with a given salt of 8 bytes or more, a password that is with the
    /// pepper no longer than 0xFFFFFFFF bytes is always hashed.
    pub fn hash_password(password: Vec<u8>, salt: Option<Salt>, pepper: &str) -> (out: Option<
        (PasswordHash, Salt),
    >)
        ensures
            match salt {
                Some(given) => match password_digest(password@, pepper.spec_bytes(), given@) {
                    Some(digest) => out matches Some(pair) && pair.0@ == digest && pair.1@
                        == given@,
                    None => out is None,
                },
                None => match out {
                    Some(pair) => pair.1@.len() == SALT_LEN && password_digest(
                        password@,
                        pepper.spec_bytes(),
                        pair.1@,
                    ) == Some(pair.0@),
                    None => exists|drawn: Seq<u8>|
                        drawn.len() == SALT_LEN && (#[trigger] password_digest(
                            password@,
                            pepper.spec_bytes(),
                            drawn,
                        )) is None,
                },
            },
            out matches Some(pair) ==> pair.0@.len() == HASH_LEN,
            salt matches Some(given) && given@.len() < MIN_SALT_LEN ==> out is None,
            password@.len() + pepper.spec_bytes().len() <= MAX_HASH_INPUT_LEN && (salt matches Some(
                given,
            ) ==> MIN_SALT_LEN <= given@.len() <= MAX_HASH_INPUT_LEN) ==> out is Some,
    {
        let mut prepared = password;
        let pepper_bytes = pepper.as_bytes();
        let ghost plain = prepared@;
        prepared.extend_from_slice(pepper_bytes);
        assert(prepared@ =~= peppered(plain, pepper.spec_bytes()));
        let salt = match salt {
            Some(given) => given,
            None => Salt(random_salt()),
        };
        match argon2_hash(prepared.as_slice(), salt.0.as_slice()) {
            Some(digest) => Some((PasswordHash(digest), salt)),
            None => {
                assert(password_digest(plain, pepper.spec_bytes(), salt@) is None);
                None
            },
        }
    }

    /// Trades a refresh token for an access token at second `now`, given the
    /// token version stored for the user: refused as revoked where the
    /// versions differ, as expired where the token's time is up.
    pub fn mint_access_token_at(refresh_token: &RefreshToken, token_ver: Id, now: u64) -> (outcome:
        Result<AccessToken, TokenError>)
        ensures
            outcome == access_outcome(*refresh_token, token_ver, now),
    {
        if token_ver != refresh_token.ver {
            Err(TokenError::Revoked)
        } else if !refresh_token.is_valid_at(now) {
            Err(TokenError::Expired)
        } else {
            Ok(AccessToken::issued_at(refresh_token.sub, now))
        }
    }

    /// Trades a refresh token for an access token by the system clock, given
    /// the token version stored for the user.
    pub fn mint_access_token(refresh_token: &RefreshToken, token_ver: Id) -> (outcome: Result<
        AccessToken,
        TokenError,
    >)
        ensures
            exists|now: u64| outcome == #[trigger] access_outcome(*refresh_token, token_ver, now),
            token_ver != refresh_token.ver ==> outcome == Err::<AccessToken, TokenError>(
                TokenError::Revoked,
            ),
    {
        let now = now_seconds();
        let outcome = Self::mint_access_token_at(refresh_token, token_ver, now);
        assert(outcome == access_outcome(*refresh_token, token_ver, now));
        outcome
    }
}

/// A refresh token minted before the user's version was bumped buys nothing
/// afterwards, whatever the time.
pub proof fn bump_revokes_earlier_tokens(token: RefreshToken, new_ver: Id, now: u64)
    requires
        token.ver != new_ver,
    ensures
        access_outcome(token, new_ver, now) == Err::<AccessToken, TokenError>(TokenError::Revoked),
{
}

/// A refresh token stamped with the current version is accepted at every
/// second before its own expiry, and at no later one.
pub proof fn current_token_accepted_until_expiry(token: RefreshToken, now: u64)
    ensures
        now < token.exp ==> access_outcome(token, token.ver, now) is Ok,
        now >= token.exp ==> access_outcome(token, token.ver, now) == Err::<
            AccessToken,
            TokenError,
        >(TokenError::Expired),
        access_outcome(token, token.ver, now) matches Ok(access) ==> access.sub == token.sub,
{
}

} // verus!
