//! The request and response shapes of the HTTP surface.
//!
//! These are plain data: the edge decodes its wire format into them and
//! back. `UserData` is the outward view of an account — password hash
//! never included, bio flattened to an empty string.

use vstd::prelude::*;
use crate::models::User;

verus! {

/// Body of a registration request.
#[derive(Debug)]
pub struct RegisterUserRequest {
    pub user: RegisterUserData,
}

/// The credentials a registration carries.
#[derive(Debug)]
pub struct RegisterUserData {
    pub username: String,
    pub email: String,
    pub password: String,
}

/// Body of a login request.
#[derive(Debug)]
pub struct LoginUserRequest {
    pub user: LoginUserData,
}

/// The credentials a login carries.
#[derive(Debug)]
pub struct LoginUserData {
    pub email: String,
    pub password: String,
}

/// Response carrying one account.
#[derive(Debug)]
pub struct UserResponse {
    pub user: UserData,
}

/// The outward view of an account, with the access token it was served
/// under.
#[derive(Debug)]
pub struct UserData {
    pub email: String,
    pub username: String,
    pub token: String,
    pub bio: String,
    pub image: Option<String>,
    pub email_verified: bool,
}

impl UserData {
    /// The outward view of `user`, carrying `token`. The bio is the
    /// stored text, or empty where none is stored; the password hash
    /// stays behind.
    pub fn from_user_with_token(user: User, token: String) -> (r: Self)
        ensures
            r.email == user.email,
            r.username == user.username,
            r.token == token,
            user.bio matches Some(b) ==> r.bio == b,
            user.bio is None ==> r.bio@ =~= Seq::<char>::empty(),
            r.image == user.image,
            r.email_verified == user.email_verified,
    {
        let bio = match user.bio {
            Some(b) => b,
            None => String::new(),
        };
        UserData {
            email: user.email,
            token,
            username: user.username,
            bio,
            image: user.image,
            email_verified: user.email_verified,
        }
    }
}

/// Response to a successful registration or login: the account and its
/// first token pair.
#[derive(Debug)]
pub struct LoginUserResponse {
    pub user: UserData,
    pub access_token: String,
    pub refresh_token: String,
}

/// Body of a rotation request.
#[derive(Debug)]
pub struct RefreshTokenRequest {
    pub refresh_token: String,
}

/// Response to a successful rotation: the replacement pair.
#[derive(Debug)]
pub struct RefreshTokenResponse {
    pub access_token: String,
    pub refresh_token: String,
}

/// Body of a logout request.
#[derive(Debug)]
pub struct LogoutRequest {
    pub refresh_token: String,
}

/// Response to a logout.
#[derive(Debug)]
pub struct LogoutResponse {
    pub message: String,
}

/// Body of a forgot-password request.
#[derive(Debug)]
pub struct ForgotPasswordRequest {
    pub email: String,
}

/// Response to a forgot-password request.
#[derive(Debug)]
pub struct ForgotPasswordResponse {
    pub message: String,
}

/// Body of a reset-password request.
#[derive(Debug)]
pub struct ResetPasswordRequest {
    pub token: String,
    pub new_password: String,
}

/// Response to a reset-password request.
#[derive(Debug)]
pub struct ResetPasswordResponse {
    pub message: String,
}

} // verus!
