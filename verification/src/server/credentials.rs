//! Credentials as a client sends them, their validation, and their check
//! against what is stored for a user.

use core::marker::PhantomData;
use vstd::prelude::*;
use vstd::string::StringExecFns;
use vstd::string::StrSliceExecFns;
use vstd::string::StringSliceAdditionalSpecFns;
use vstd::utf8::encode_utf8;

use crate::server::auth::{
    password_digest, Auth, PasswordHash, Salt, HASH_LEN, MAX_HASH_INPUT_LEN, MIN_SALT_LEN, SALT_LEN,
};
use crate::server::ident::Id;
use crate::server::text::{chars_of, same_ignoring_ascii_case, tail_matches_ignoring_case};

verus! {

/// Why credentials are refused.
#[derive(Debug, Clone, Copy, PartialEq, Eq, Structural)]
pub enum CredentialError {
    /// The address has not the right form.
    InvalidEmail,
    /// The password is empty, or not the one stored.
    InvalidPassword,
    /// The address belongs to an account already.
    EmailTaken,
    /// The name belongs to an account already.
    UsernameTaken,
    /// A login failed; whether the address or the password was wrong is not
    /// told.
    InvalidCredentials,
}

impl CredentialError {
    /// The error in words.
    pub fn message(&self) -> (text: String)
        ensures
            text@ == match *self {
                CredentialError::InvalidEmail => "Invalid email"@,
                CredentialError::InvalidPassword => "Invalid password"@,
                CredentialError::EmailTaken => "Email taken"@,
                CredentialError::UsernameTaken => "Username taken"@,
                CredentialError::InvalidCredentials => "Invalid credentials"@,
            },
    {
        match self {
            CredentialError::InvalidEmail => String::from_str("Invalid email"),
            CredentialError::InvalidPassword => String::from_str("Invalid password"),
            CredentialError::EmailTaken => String::from_str("Email taken"),
            CredentialError::UsernameTaken => String::from_str("Username taken"),
            CredentialError::InvalidCredentials => String::from_str("Invalid credentials"),
        }
    }
}

/// The mail domain that accounts must belong to.
pub open spec fn required_domain() -> Seq<char> {
    "technischools.com"@
}

/// Whether `at` is the place of the first `@` in `email`.
pub open spec fn first_at_sign(email: Seq<char>, at: int) -> bool {
    &&& 0 <= at < email.len()
    &&& email[at] == '@'
    &&& forall|j: int| 0 <= j < at ==> email[j] != '@'
}

/// Whether an address is acceptable: something stands before its first `@`,
/// and what stands behind it is the required domain, in any case of letters.
pub open spec fn acceptable_email(email: Seq<char>) -> bool {
    exists|at: int|
        first_at_sign(email, at) && at > 0 && same_ignoring_ascii_case(
            #[trigger] email.skip(at + 1),
            required_domain(),
        )
}

/// What validation makes of an address and a password.
pub open spec fn validation_outcome(email: Seq<char>, password: Seq<char>) -> Result<
    (),
    CredentialError,
> {
    if !acceptable_email(email) {
        Err(CredentialError::InvalidEmail)
    } else if password.len() == 0 {
        Err(CredentialError::InvalidPassword)
    } else {
        Ok(())
    }
}

/// Marks credentials whose form has not been checked.
#[derive(Debug)]
pub struct Invalid;

/// Marks credentials whose form has been checked.
#[derive(Debug)]
pub struct Valid;

/// An address and a password. With the mark `Valid` they have the right
/// form; whether they match an account is for `StoredCredentials` to say.
#[derive(Debug)]
pub struct Credentials<T = Invalid> {
    password: String,
    email: String,
    phantom: PhantomData<T>,
}

impl<T> Credentials<T> {
    /// The address.
    pub closed spec fn email(&self) -> Seq<char> {
        self.email@
    }

    /// The password.
    pub closed spec fn password(&self) -> Seq<char> {
        self.password@
    }
}

impl Credentials<Invalid> {
    /// Credentials as received, unchecked.
    pub fn new(email: String, password: String) -> (credentials: Self)
        ensures
            credentials.email() == email@,
            credentials.password() == password@,
    {
        Credentials { password, email, phantom: PhantomData }
    }

    /// Checks the form: the address must be acceptable and the password not
    /// empty. The address is judged first.
    pub fn validate(self) -> (outcome: Result<Credentials<Valid>, CredentialError>)
        ensures
            match outcome {
                Ok(valid) => validation_outcome(self.email(), self.password()) is Ok
                    && valid.email() == self.email() && valid.password() == self.password(),
                Err(e) => validation_outcome(self.email(), self.password()) == Err::<
                    (),
                    CredentialError,
                >(e),
            },
    {
        let chars = chars_of(self.email.as_str());
        let domain_chars = chars_of("technischools.com");
        let mut at: usize = 0;
        while at < chars.len() && chars[at] != '@'
            invariant
                at <= chars.len(),
                forall|j: int| 0 <= j < at ==> chars@[j] != '@',
            decreases chars.len() - at,
        {
            at += 1;
        }
        if at == chars.len() {
            assert(!acceptable_email(self.email@));
            return Err(CredentialError::InvalidEmail);
        }
        assert(first_at_sign(self.email@, at as int));
        assert forall|other: int| first_at_sign(self.email@, other) implies other == at by {
            if other < at {
                assert(chars@[other] != '@');
            } else if at < other {
                assert(self.email@[at as int] != '@');
            }
        }
        if at == 0 || !tail_matches_ignoring_case(&chars, at + 1, &domain_chars) {
            assert(!acceptable_email(self.email@));
            return Err(CredentialError::InvalidEmail);
        }
        assert(acceptable_email(self.email@)) by {
            assert(same_ignoring_ascii_case(self.email@.skip(at + 1), required_domain()));
        }
        if self.password.as_str().is_empty() {
            return Err(CredentialError::InvalidPassword);
        }
        Ok(Credentials { phantom: PhantomData, password: self.password, email: self.email })
    }
}

impl Credentials<Valid> {
    /// Whether the form is right, as validation established it.
    pub open spec fn well_formed(&self) -> bool {
        acceptable_email(self.email()) && self.password().len() > 0
    }

    /// Hashes the password under a fresh salt of 16 bytes, for storing: the
    /// address, the hash and the salt. A password that is with the pepper
    /// no longer than 0xFFFFFFFF bytes is always hashed; `None` comes back
    /// only where the hash function refuses the password under the salt
    /// that was drawn.
    pub fn prepare(self, pepper: &str) -> (out: Option<(String, PasswordHash, Salt)>)
        ensures
            match out {
                Some(row) => {
                    &&& row.0@ == self.email()
                    &&& password_digest(encode_utf8(self.password()), pepper.spec_bytes(), row.2@)
                        == Some(row.1@)
                    &&& row.1@.len() == HASH_LEN
                    &&& row.2@.len() == SALT_LEN
                },
                None => exists|drawn: Seq<u8>|
                    drawn.len() == SALT_LEN && (#[trigger] password_digest(
                        encode_utf8(self.password()),
                        pepper.spec_bytes(),
                        drawn,
                    )) is None,
            },
            encode_utf8(self.password()).len() + pepper.spec_bytes().len() <= MAX_HASH_INPUT_LEN
                ==> out is Some,
    {
        let password = self.password.as_str().as_bytes_vec();
        match Auth::hash_password(password, None, pepper) {
            Some((hash, salt)) => Some((self.email, hash, salt)),
            None => None,
        }
    }

    /// A copy of the address.
    pub fn get_email(&self) -> (email: String)
        ensures
            email@ == self.email(),
    {
        self.email.clone()
    }
}

/// What is stored of a user's credentials.
#[derive(Debug)]
pub struct StoredCredentials {
    user_id: Id,
    password_hash: PasswordHash,
    salt: Salt,
}

impl StoredCredentials {
    /// The user.
    pub closed spec fn user_id(&self) -> Id {
        self.user_id
    }

    /// The stored hash.
    pub closed spec fn hash(&self) -> Seq<u8> {
        self.password_hash@
    }

    /// The stored salt.
    pub closed spec fn salt(&self) -> Seq<u8> {
        self.salt@
    }

    /// Whether `password` under `pepper` hashes to what is stored. Where
    /// the hash function refuses the stored salt, no password does.
    pub open spec fn accepts(&self, password: Seq<char>, pepper: Seq<u8>) -> bool {
        password_digest(encode_utf8(password), pepper, self.salt()) == Some(self.hash())
    }

    /// What is stored for `user_id`.
    pub fn new(user_id: Id, password_hash: PasswordHash, salt: Salt) -> (stored: Self)
        ensures
            stored.user_id() == user_id,
            stored.hash() == password_hash@,
            stored.salt() == salt@,
    {
        StoredCredentials { user_id, password_hash, salt }
    }

    /// Hashes the offered password with the stored salt and compares it with
    /// the stored hash. A stored salt that the hash function refuses, as one
    /// under 8 bytes, lets no password in.
    pub fn check_credentials(self, credentials: Credentials<Valid>, pepper: &str) -> (outcome:
        Result<(), CredentialError>)
        ensures
            outcome == if self.accepts(credentials.password(), pepper.spec_bytes()) {
                Ok::<(), CredentialError>(())
            } else {
                Err(CredentialError::InvalidPassword)
            },
            self.salt().len() < MIN_SALT_LEN ==> outcome == Err::<(), CredentialError>(
                CredentialError::InvalidPassword,
            ),
    {
        let password = credentials.password.as_str().as_bytes_vec();
        match Auth::hash_password(password, Some(self.salt), pepper) {
            Some((password_hash, _)) => if self.password_hash.matches(&password_hash) {
                Ok(())
            } else {
                Err(CredentialError::InvalidPassword)
            },
            None => Err(CredentialError::InvalidPassword),
        }
    }
}

} // verus!
