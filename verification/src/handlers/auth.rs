//! Accounts: registration, sign-in and the credential that both hand out.

use crate::api::ApiError;
use crate::json::{lower, Json, JsonView};
use crate::middleware::auth::{Claims, ClaimsView};
use crate::models::game_room::opt_text;
use crate::models::user::{
    AuthResponse, CreateUserDto, LoginDto, User, UserResponse, UserResponseView, UserView,
};
use crate::oid::{is_object_id, parses_as_object_id};
use vstd::prelude::*;

verus! {

/// For how long a credential is good, in seconds: a day.
pub const TOKEN_LIFETIME: u64 = 86400;

/// The credential that `encode` of jsonwebtoken makes of claims with the
/// default header and a key made of the secret, or `None` where it
/// reports an error.
pub uninterp spec fn signed_token(claims: JsonView, secret: Seq<char>) -> Option<Seq<char>>;

/// What `verify` of bcrypt says of a password and a stored hash, or `None`
/// where it reports an error.
pub uninterp spec fn bcrypt_verdict(password: Seq<char>, hash: Seq<char>) -> Option<bool>;

/// Calls `encode` of jsonwebtoken with `Header::default()`, which asks for
/// HS256, and a key made of `secret` by `EncodingKey::from_secret`. The
/// contract claims only that the credential is a function of the claims
/// and the secret.
#[verifier::external_body]
fn sign_claims(claims: &Json, secret: &str) -> (token: Option<String>)
    ensures
        match token {
            Some(t) => signed_token(claims@, secret@) == Some(t@),
            None => signed_token(claims@, secret@).is_none(),
        },
{
    let key = jsonwebtoken::EncodingKey::from_secret(secret.as_bytes());
    jsonwebtoken::encode(&jsonwebtoken::Header::default(), &lower(claims), &key).ok()
}

/// Calls `hash` of bcrypt with `DEFAULT_COST`. The salt is random, so the
/// contract claims nothing of the outcome.
#[verifier::external_body]
fn hash_password(password: &str) -> (hash: Option<String>) {
    bcrypt::hash(password.as_bytes(), bcrypt::DEFAULT_COST).ok()
}

/// Calls `verify` of bcrypt. The contract claims only that the verdict is
/// a function of the password and the hash.
#[verifier::external_body]
fn verify_password(password: &str, hash: &str) -> (verdict: Option<bool>)
    ensures
        verdict == bcrypt_verdict(password@, hash@),
{
    bcrypt::verify(password, hash).ok()
}

/// The claims of a credential issued to `user_id` at `now`: it expires a
/// day later. There are none where that instant does not fit the
/// machine's word or a 64-bit signed integer.
pub open spec fn issued_claims(user_id: Seq<char>, now: u64) -> Option<ClaimsView> {
    if now + TOKEN_LIFETIME <= usize::MAX && now + TOKEN_LIFETIME <= i64::MAX {
        Some(ClaimsView { sub: user_id, exp: (now + TOKEN_LIFETIME) as usize })
    } else {
        None
    }
}

/// The credential issued to `user_id` at `now` under `secret`.
pub open spec fn issued_token(user_id: Seq<char>, now: u64, secret: Seq<char>) -> Option<Seq<char>> {
    match issued_claims(user_id, now) {
        Some(claims) => signed_token(claims.to_json(), secret),
        None => None,
    }
}

/// Issues a credential to `user_id` at `now`, seconds since the epoch.
pub fn create_jwt(user_id: String, now: u64, secret: &str) -> (outcome: Result<String, ApiError>)
    ensures
        match outcome {
            Ok(token) => issued_token(user_id@, now, secret@) == Some(token@),
            Err(error) => error == ApiError::Internal && issued_token(
                user_id@,
                now,
                secret@,
            ).is_none(),
        },
{
    if now > u64::MAX - TOKEN_LIFETIME {
        return Err(ApiError::Internal);
    }
    let expiry: u64 = now + TOKEN_LIFETIME;
    if expiry > usize::MAX as u64 || expiry > i64::MAX as u64 {
        return Err(ApiError::Internal);
    }
    let claims = Claims { sub: user_id, exp: expiry as usize };
    match claims.to_json() {
        Some(doc) => match sign_claims(&doc, secret) {
            Some(token) => Ok(token),
            None => Err(ApiError::Internal),
        },
        None => Err(ApiError::Internal),
    }
}

impl UserView {
    /// The account as it is reported to a client.
    pub open spec fn response(self) -> UserResponseView
        recommends
            self.id is Some,
    {
        UserResponseView {
            id: self.id->0,
            email: self.email,
            username: self.username,
            profile_image: self.profile_image,
        }
    }
}

/// Reports an account that the store holds.
pub fn user_response(user: &User) -> (response: UserResponse)
    requires
        user.id is Some,
    ensures
        response@ == user@.response(),
{
    let id = match &user.id {
        Some(id) => id.clone(),
        None => String::new(),
    };
    UserResponse {
        id,
        email: user.email.clone(),
        username: user.username.clone(),
        profile_image: user.profile_image.clone(),
    }
}

/// The account that a registration asks for, with the hash of its
/// password. The store has not seen it yet.
pub fn new_user(dto: CreateUserDto, password_hash: String) -> (user: User)
    ensures
        user@ == (UserView {
            id: None,
            email: dto.email@,
            username: dto.username@,
            password_hash: password_hash@,
            profile_image: opt_text(dto.profile_image),
        }),
{
    User {
        id: None,
        email: dto.email,
        username: dto.username,
        password_hash,
        profile_image: dto.profile_image,
    }
}

/// Makes the account that a registration asks for. `taken` says whether
/// the store holds an account with the same email; then the registration
/// is refused. The password is kept as a hash.
pub fn register(taken: bool, dto: CreateUserDto) -> (outcome: Result<User, ApiError>)
    ensures
        match outcome {
            Ok(user) => !taken && user@ == (UserView {
                id: None,
                email: dto.email@,
                username: dto.username@,
                password_hash: user@.password_hash,
                profile_image: opt_text(dto.profile_image),
            }),
            Err(error) => error == if taken {
                ApiError::EmailTaken
            } else {
                ApiError::Internal
            },
        },
{
    if taken {
        return Err(ApiError::EmailTaken);
    }
    match hash_password(dto.password.as_str()) {
        Some(password_hash) => Ok(new_user(dto, password_hash)),
        None => Err(ApiError::Internal),
    }
}

/// The answer to a registration or a sign-in: the account and a
/// credential issued to it at `now`.
pub fn authenticate(user: &User, now: u64, secret: &str) -> (outcome: Result<AuthResponse, ApiError>)
    requires
        user.id is Some,
    ensures
        match outcome {
            Ok(response) => issued_token(user@.id->0, now, secret@) == Some(response.token@)
                && response.user@ == user@.response(),
            Err(error) => error == ApiError::Internal && issued_token(
                user@.id->0,
                now,
                secret@,
            ).is_none(),
        },
{
    let response = user_response(user);
    match create_jwt(response.id.clone(), now, secret) {
        Ok(token) => Ok(AuthResponse { token, user: response }),
        Err(error) => Err(error),
    }
}

/// Whether a sign-in is good: `found` is the account that the store holds
/// under the email. An unknown email and a wrong password are refused
/// alike.
pub open spec fn login_verdict(found: Option<UserView>, password: Seq<char>) -> Result<
    (),
    ApiError,
> {
    match found {
        None => Err(ApiError::InvalidCredentials),
        Some(user) => match bcrypt_verdict(password, user.password_hash) {
            None => Err(ApiError::Internal),
            Some(false) => Err(ApiError::InvalidCredentials),
            Some(true) => Ok(()),
        },
    }
}

/// What an optional account stands for.
pub open spec fn opt_user(user: Option<&User>) -> Option<UserView> {
    match user {
        Some(u) => Some(u@),
        None => None,
    }
}

/// Signs a client in: checks the password against the account that the
/// store holds under the email, and issues a credential at `now`.
pub fn login(found: Option<&User>, dto: &LoginDto, now: u64, secret: &str) -> (outcome: Result<
    AuthResponse,
    ApiError,
>)
    requires
        found matches Some(user) ==> user.id is Some,
    ensures
        match outcome {
            Ok(response) => login_verdict(opt_user(found), dto.password@).is_ok() && issued_token(
                found->0@.id->0,
                now,
                secret@,
            ) == Some(response.token@) && response.user@ == found->0@.response(),
            Err(error) => match login_verdict(opt_user(found), dto.password@) {
                Err(refusal) => error == refusal,
                Ok(_) => error == ApiError::Internal && issued_token(
                    found->0@.id->0,
                    now,
                    secret@,
                ).is_none(),
            },
        },
{
    let user = match found {
        Some(user) => user,
        None => {
            return Err(ApiError::InvalidCredentials);
        },
    };
    match verify_password(dto.password.as_str(), user.password_hash.as_str()) {
        None => Err(ApiError::Internal),
        Some(false) => Err(ApiError::InvalidCredentials),
        Some(true) => authenticate(user, now, secret),
    }
}

/// Reports the account with the identity `user_id`: `found` is what the
/// store holds under it.
pub fn get_me(user_id: &str, found: Option<&User>) -> (outcome: Result<UserResponse, ApiError>)
    requires
        found matches Some(user) ==> user.id is Some,
    ensures
        match outcome {
            Ok(response) => {
                &&& is_object_id(user_id@)
                &&& found is Some
                &&& response@ == found->0@.response()
            },
            Err(error) => error == if !is_object_id(user_id@) {
                ApiError::InvalidUserId
            } else {
                ApiError::UserNotFound
            } && (is_object_id(user_id@) ==> found.is_none()),
        },
{
    if !parses_as_object_id(user_id) {
        return Err(ApiError::InvalidUserId);
    }
    match found {
        Some(user) => Ok(user_response(user)),
        None => Err(ApiError::UserNotFound),
    }
}

} // verus!
