use techni_zlecenia_api::server::auth::{same_bytes, Auth, PasswordHash, Salt};
use techni_zlecenia_api::server::credentials::{CredentialError, Credentials, StoredCredentials};

fn check(email: &str, password: &str) -> Result<(), CredentialError> {
    Credentials::new(email.to_string(), password.to_string()).validate().map(|_| ())
}

#[test]
fn validate_accepts_the_domain_in_any_case() {
    assert_eq!(check("jan@technischools.com", "secret"), Ok(()));
    assert_eq!(check("jan@TechniSchools.COM", "secret"), Ok(()));
    assert_eq!(check("j@technischools.com", "s"), Ok(()));
}

#[test]
fn validate_rejects_bad_addresses() {
    assert_eq!(check("technischools.com", "secret"), Err(CredentialError::InvalidEmail));
    assert_eq!(check("@technischools.com", "secret"), Err(CredentialError::InvalidEmail));
    assert_eq!(check("jan@example.com", "secret"), Err(CredentialError::InvalidEmail));
    assert_eq!(check("jan@technischools.com ", "secret"), Err(CredentialError::InvalidEmail));
    assert_eq!(check("a@b@technischools.com", "secret"), Err(CredentialError::InvalidEmail));
    assert_eq!(check("jan@technischools.co", "secret"), Err(CredentialError::InvalidEmail));
    assert_eq!(check("", "secret"), Err(CredentialError::InvalidEmail));
    assert_eq!(check("jan@", "secret"), Err(CredentialError::InvalidEmail));
}

#[test]
fn validate_rejects_empty_password_after_the_address() {
    assert_eq!(check("jan@technischools.com", ""), Err(CredentialError::InvalidPassword));
    assert_eq!(check("jan@example.com", ""), Err(CredentialError::InvalidEmail));
}

#[test]
fn credential_error_messages() {
    assert_eq!(CredentialError::InvalidEmail.message(), "Invalid email");
    assert_eq!(CredentialError::InvalidPassword.message(), "Invalid password");
    assert_eq!(CredentialError::EmailTaken.message(), "Email taken");
    assert_eq!(CredentialError::UsernameTaken.message(), "Username taken");
    assert_eq!(CredentialError::InvalidCredentials.message(), "Invalid credentials");
}

#[test]
fn get_email_returns_the_address() {
    let valid = Credentials::new("jan@technischools.com".to_string(), "pw".to_string()).validate().unwrap();
    assert_eq!(valid.get_email(), "jan@technischools.com");
}

#[test]
fn hash_is_a_function_of_password_pepper_and_salt() {
    let salt = Salt::from_bytes(vec![1, 2, 3, 4, 5, 6, 7, 8, 9, 10, 11, 12, 13, 14, 15, 16]);
    let (h1, s1) = Auth::hash_password(b"password".to_vec(), Some(salt.clone()), "pepper").unwrap();
    let (h2, _) = Auth::hash_password(b"password".to_vec(), Some(salt.clone()), "pepper").unwrap();
    let (h3, _) = Auth::hash_password(b"password".to_vec(), Some(salt.clone()), "other").unwrap();
    let (h4, _) = Auth::hash_password(b"passworD".to_vec(), Some(salt.clone()), "pepper").unwrap();
    assert_eq!(h1.len(), 32);
    assert_eq!(&*s1, &*salt);
    assert!(h1.matches(&h2));
    assert!(!h1.matches(&h3));
    assert!(!h1.matches(&h4));
    assert_ne!(&*h1, &b"passwordpepper"[..]);
    assert_ne!(&*h1, &[0u8; 32][..]);
    let (joined, _) = Auth::hash_password(b"passwordpep".to_vec(), Some(salt), "per").unwrap();
    assert!(h1.matches(&joined));
}

#[test]
fn a_salt_under_eight_bytes_is_refused() {
    assert!(Auth::hash_password(b"password".to_vec(), Some(Salt::from_bytes(vec![1, 2, 3])), "pepper").is_none());
    assert!(Auth::hash_password(b"password".to_vec(), Some(Salt::from_bytes(vec![7; 7])), "pepper").is_none());
    assert!(Auth::hash_password(b"password".to_vec(), Some(Salt::from_bytes(vec![])), "pepper").is_none());
    assert!(Auth::hash_password(b"password".to_vec(), Some(Salt::from_bytes(vec![7; 8])), "pepper").is_some());
}

#[test]
fn a_short_stored_salt_lets_no_password_in() {
    let zeros = PasswordHash::from_bytes(vec![0; 32]);
    let any = Credentials::new("jan@technischools.com".to_string(), "pw".to_string()).validate().unwrap();
    let stored = StoredCredentials::new(1, zeros, Salt::from_bytes(vec![1, 2, 3]));
    assert_eq!(stored.check_credentials(any, "pepper"), Err(CredentialError::InvalidPassword));
}

#[test]
fn fresh_salt_has_sixteen_bytes() {
    let (h, s) = Auth::hash_password(b"password".to_vec(), None, "pepper").unwrap();
    assert_eq!(s.len(), 16);
    assert_eq!(h.len(), 32);
    let (_, t) = Auth::hash_password(b"password".to_vec(), None, "pepper").unwrap();
    assert_ne!(&*s, &*t);
}

#[test]
fn prepare_then_check_accepts_the_same_password_only() {
    let valid = Credentials::new("jan@technischools.com".to_string(), "pw".to_string()).validate().unwrap();
    let (email, hash, salt) = valid.prepare("pepper").unwrap();
    assert_eq!(email, "jan@technischools.com");
    let right = Credentials::new("jan@technischools.com".to_string(), "pw".to_string()).validate().unwrap();
    let wrong = Credentials::new("jan@technischools.com".to_string(), "pW".to_string()).validate().unwrap();
    let stored = StoredCredentials::new(1, hash.clone(), salt.clone());
    assert_eq!(stored.check_credentials(right, "pepper"), Ok(()));
    let stored = StoredCredentials::new(1, hash.clone(), salt.clone());
    assert_eq!(stored.check_credentials(wrong, "pepper"), Err(CredentialError::InvalidPassword));
    let again = Credentials::new("jan@technischools.com".to_string(), "pw".to_string()).validate().unwrap();
    let stored = StoredCredentials::new(1, hash, salt);
    assert_eq!(stored.check_credentials(again, "salt"), Err(CredentialError::InvalidPassword));
}

#[test]
fn hashes_and_salts_from_bytes() {
    let h = PasswordHash::from(vec![1u8, 2, 3]);
    assert_eq!(&*h, &[1u8, 2, 3][..]);
    assert_eq!(h, PasswordHash::from_bytes(vec![1, 2, 3]));
    let s = Salt::from(vec![4u8, 5]);
    assert_eq!(&*s, &[4u8, 5][..]);
    assert!(same_bytes(&[1, 2], &[1, 2]));
    assert!(!same_bytes(&[1, 2], &[1, 3]));
    assert!(!same_bytes(&[1, 2], &[1, 2, 3]));
    assert!(same_bytes(&[], &[]));
}

#[test]
fn prepare_gives_address_hash_and_salt() {
    let valid = Credentials::new("jan@technischools.com".to_string(), "p\u{105}ss".to_string()).validate().unwrap();
    let (email, hash, salt) = valid.prepare("pepper").expect("an ordinary password is hashed");
    assert_eq!(email, "jan@technischools.com");
    assert_eq!(hash.len(), 32);
    assert_eq!(salt.len(), 16);
    let (again, _) = Auth::hash_password("p\u{105}ss".as_bytes().to_vec(), Some(salt.clone()), "pepper").unwrap();
    assert!(hash.matches(&again));
    assert_ne!(&*hash, "p\u{105}ss".as_bytes());
    let empty_pepper = Credentials::new("jan@technischools.com".to_string(), "x".to_string()).validate().unwrap();
    assert!(empty_pepper.prepare("").is_some());
}
