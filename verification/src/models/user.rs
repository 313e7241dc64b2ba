//! Accounts and the requests that create and use them.

use crate::models::game_room::opt_text;
use vstd::prelude::*;

verus! {

/// A durable account. The store assigns `id`; it is `None` until then.
#[derive(Debug, PartialEq)]
pub struct User {
    pub id: Option<String>,
    pub email: String,
    pub username: String,
    pub password_hash: String,
    pub profile_image: Option<String>,
}

pub struct UserView {
    pub id: Option<Seq<char>>,
    pub email: Seq<char>,
    pub username: Seq<char>,
    pub password_hash: Seq<char>,
    pub profile_image: Option<Seq<char>>,
}

impl View for User {
    type V = UserView;

    open spec fn view(&self) -> UserView {
        UserView {
            id: opt_text(self.id),
            email: self.email@,
            username: self.username@,
            password_hash: self.password_hash@,
            profile_image: opt_text(self.profile_image),
        }
    }
}

impl Clone for User {
    fn clone(&self) -> (copy: Self)
        ensures
            copy == *self,
    {
        User {
            id: self.id.clone(),
            email: self.email.clone(),
            username: self.username.clone(),
            password_hash: self.password_hash.clone(),
            profile_image: self.profile_image.clone(),
        }
    }
}

/// The request to create an account.
#[derive(Debug, PartialEq)]
pub struct CreateUserDto {
    pub email: String,
    pub username: String,
    pub password: String,
    pub profile_image: Option<String>,
}

/// The request to sign in.
#[derive(Debug, PartialEq)]
pub struct LoginDto {
    pub email: String,
    pub password: String,
}

/// An account as it is reported to a client.
#[derive(Debug, PartialEq)]
pub struct UserResponse {
    pub id: String,
    pub email: String,
    pub username: String,
    pub profile_image: Option<String>,
}

pub struct UserResponseView {
    pub id: Seq<char>,
    pub email: Seq<char>,
    pub username: Seq<char>,
    pub profile_image: Option<Seq<char>>,
}

impl View for UserResponse {
    type V = UserResponseView;

    open spec fn view(&self) -> UserResponseView {
        UserResponseView {
            id: self.id@,
            email: self.email@,
            username: self.username@,
            profile_image: opt_text(self.profile_image),
        }
    }
}

/// The answer to a successful registration or sign-in.
#[derive(Debug, PartialEq)]
pub struct AuthResponse {
    pub token: String,
    pub user: UserResponse,
}

/// A participant without an account.
#[derive(Debug, PartialEq)]
pub struct GuestUser {
    pub id: Option<String>,
    pub username: String,
    pub profile_image: Option<String>,
    pub is_guest: bool,
}

/// The request of a guest to enter a room.
#[derive(Debug, PartialEq)]
pub struct GuestJoinDto {
    pub username: String,
    pub room_code: String,
}

} // verus!
