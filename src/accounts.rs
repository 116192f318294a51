use crate::errors::{blank, ValidationError};
use vstd::prelude::*;
use vstd::utf8::encode_utf8;

verus! {

/// Shortest password accepted at signup, in bytes of its UTF-8 form.
pub const MIN_PASSWORD_BYTES: usize = 8;

/// Length of the UTF-8 form of `s`, as `str::len` reports it.
pub open spec fn byte_len(s: Seq<char>) -> usize {
    encode_utf8(s).len() as usize
}

/// Body of a signup request.
pub struct SignupRequest {
    pub email: String,
    pub password: String,
    pub firstname: String,
    pub lastname: String,
}

/// Body of a login request.
pub struct LoginRequest {
    pub email: String,
    pub password: String,
}

/// A user as shown to its owner.
pub struct UserResponse {
    pub id: i64,
    pub email: String,
    pub firstname: Option<String>,
    pub lastname: Option<String>,
    pub email_verified: bool,
}

/// Answer to a successful login: the session token and the user.
pub struct AuthResponse {
    pub token: String,
    pub user: UserResponse,
}

/// Body of a request for a verification mail.
pub struct VerifyEmailRequest {
    pub email: String,
}

/// Answer to a request for a verification mail.
pub struct VerifyEmailResponse {
    pub message: String,
    pub verification_link: String,
}

/// The claims carried by a session token.
pub struct Claims {
    pub sub: String,
    pub user_id: i64,
    pub email: String,
    pub exp: i64,
    pub iat: i64,
}

/// Holds the secret that session tokens are signed with.
#[derive(Clone)]
pub struct JwtService {
    secret: String,
}

impl JwtService {
    /// The signing secret.
    pub closed spec fn spec_secret(&self) -> Seq<char> {
        self.secret@
    }

    pub fn new(secret: String) -> (r: Self)
        ensures
            r.spec_secret() == secret@,
    {
        JwtService { secret }
    }

    pub fn clone(&self) -> (r: Self)
        ensures
            r.spec_secret() == self.spec_secret(),
    {
        JwtService { secret: self.secret.clone() }
    }

    pub fn secret(&self) -> (r: &str)
        ensures
            r@ == self.spec_secret(),
    {
        self.secret.as_str()
    }
}

/// Account signup, login and e-mail verification.
pub struct AuthController;

impl SignupRequest {
    /// Email and password must be given, and the password must take at
    /// least eight bytes.
    pub fn validate(&self) -> (r: Result<(), ValidationError>)
        ensures
            (self.email@.len() == 0 || self.password@.len() == 0) ==> (r matches Err(e)
                && e.message@ == "Email and password are required"@),
            (self.email@.len() > 0 && self.password@.len() > 0 && byte_len(self.password@)
                < MIN_PASSWORD_BYTES) ==> (r matches Err(e) && e.message@
                == "Password must be at least 8 characters"@),
            r is Ok <==> (self.email@.len() > 0 && self.password@.len() > 0 && byte_len(
                self.password@,
            ) >= MIN_PASSWORD_BYTES),
    {
        if blank(&self.email) || blank(&self.password) {
            return Err(ValidationError::new("Email and password are required"));
        }
        if self.password.as_str().len() < MIN_PASSWORD_BYTES {
            return Err(ValidationError::new("Password must be at least 8 characters"));
        }
        Ok(())
    }
}

impl LoginRequest {
    /// Email and password must be given.
    pub fn validate(&self) -> (r: Result<(), ValidationError>)
        ensures
            r is Ok <==> (self.email@.len() > 0 && self.password@.len() > 0),
            r matches Err(e) ==> e.message@ == "Email and password are required"@,
    {
        if blank(&self.email) || blank(&self.password) {
            return Err(ValidationError::new("Email and password are required"));
        }
        Ok(())
    }
}

impl VerifyEmailRequest {
    /// The email must be given.
    pub fn validate(&self) -> (r: Result<(), ValidationError>)
        ensures
            r is Ok <==> self.email@.len() > 0,
            r matches Err(e) ==> e.message@ == "Email is required"@,
    {
        if blank(&self.email) {
            return Err(ValidationError::new("Email is required"));
        }
        Ok(())
    }
}

} // verus!
