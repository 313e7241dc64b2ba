//! Bearer credentials: where a request carries one, and whom it names.

use crate::api::ApiError;
use crate::json::{lift, no_members, object, put, view_members, Json, JsonView};
use crate::text::{find_named_segment, find_segment, strip_prefix, without_prefix};
use vstd::prelude::*;

verus! {

/// What a credential states: whom it names and when it expires, in
/// seconds since the epoch.
#[derive(Debug, PartialEq)]
pub struct Claims {
    pub sub: String,
    pub exp: usize,
}

pub struct ClaimsView {
    pub sub: Seq<char>,
    pub exp: usize,
}

impl View for Claims {
    type V = ClaimsView;

    open spec fn view(&self) -> ClaimsView {
        ClaimsView { sub: self.sub@, exp: self.exp }
    }
}

impl ClaimsView {
    /// The claims as a document: an object with the members `sub` and
    /// `exp`.
    pub open spec fn to_json(self) -> JsonView {
        JsonView::Object(
            seq![("sub"@, JsonView::Str(self.sub)), ("exp"@, JsonView::Int(self.exp as int))],
        )
    }

    /// The claims that a document holds: `sub` must be a string and `exp`
    /// an integer that is not negative and fits the machine's word.
    pub open spec fn from_json(doc: JsonView) -> Option<ClaimsView> {
        match (doc.text_at("sub"@), doc.i64_at("exp"@)) {
            (Some(sub), Some(exp)) if 0 <= exp <= usize::MAX => Some(
                ClaimsView { sub, exp: exp as usize },
            ),
            _ => None,
        }
    }
}

impl Claims {
    /// Writes the claims as a document, or `None` where the expiry does
    /// not fit a 64-bit signed integer.
    pub fn to_json(&self) -> (doc: Option<Json>)
        ensures
            match doc {
                Some(d) => self.exp <= i64::MAX && d@ == self@.to_json(),
                None => self.exp > i64::MAX,
            },
    {
        if self.exp as u64 > i64::MAX as u64 {
            return None;
        }
        let mut members = no_members();
        put(&mut members, "sub", Json::Str(self.sub.clone()));
        put(&mut members, "exp", Json::Int(self.exp as i64));
        assert(view_members(members@) =~= self@.to_json()->Object_0);
        Some(object(members))
    }

    /// Reads claims from a document, or `None` where it holds none.
    pub fn from_json(doc: &Json) -> (claims: Option<Claims>)
        ensures
            match claims {
                Some(c) => ClaimsView::from_json(doc@) == Some(c@),
                None => ClaimsView::from_json(doc@).is_none(),
            },
    {
        match (doc.text_at("sub"), doc.i64_at("exp")) {
            (Some(sub), Some(exp)) => {
                if 0 <= exp && exp as u64 <= usize::MAX as u64 {
                    Some(Claims { sub, exp: exp as usize })
                } else {
                    None
                }
            },
            _ => None,
        }
    }
}

/// The credential in the value of an `Authorization` header: what follows
/// `Bearer `.
pub open spec fn bearer_of(header: Seq<char>) -> Option<Seq<char>> {
    without_prefix(header, "Bearer "@)
}

/// The credential in a query string: what follows `token=` in the first
/// of the parameters, parted by `&`, that opens with it.
pub open spec fn token_of_query(query: Seq<char>) -> Option<Seq<char>> {
    find_segment(query, '&', "token="@, 0)
}

/// Takes the credential out of the value of an `Authorization` header.
pub fn bearer_token(header: &str) -> (token: Option<&str>)
    ensures
        match token {
            Some(t) => bearer_of(header@) == Some(t@),
            None => bearer_of(header@).is_none(),
        },
{
    strip_prefix(header, "Bearer ")
}

/// Takes the credential out of a query string.
pub fn token_from_query(query: &str) -> (token: Option<&str>)
    ensures
        match token {
            Some(t) => token_of_query(query@) == Some(t@),
            None => token_of_query(query@).is_none(),
        },
{
    find_named_segment(query, '&', "token=")
}

/// Calls `decode` of jsonwebtoken with a key made of `secret` by
/// `DecodingKey::from_secret` and with `Validation::new(Algorithm::HS256)`,
/// which checks the signature and the expiry. Whether a credential has
/// expired depends on the clock, so the contract claims nothing of the
/// outcome. The claims come back as a document.
#[verifier::external_body]
pub(crate) fn decode_claims(token: &str, secret: &str) -> (claims: Option<Json>) {
    let mut validation = jsonwebtoken::Validation::new(jsonwebtoken::Algorithm::HS256);
    validation.validate_exp = true;
    let key = jsonwebtoken::DecodingKey::from_secret(secret.as_bytes());
    match jsonwebtoken::decode::<serde_json::Value>(token, &key, &validation) {
        Ok(data) => Some(lift(data.claims)),
        Err(_) => None,
    }
}

/// Whom a checked credential names, given what checking it gave.
pub fn subject_of(checked: Option<Json>) -> (outcome: Result<String, ApiError>)
    ensures
        match outcome {
            Ok(subject) => checked matches Some(doc) && ClaimsView::from_json(doc@) matches Some(
                claims,
            ) && claims.sub == subject@,
            Err(error) => error == ApiError::InvalidToken && (checked matches Some(doc)
                ==> ClaimsView::from_json(doc@).is_none()),
        },
{
    match checked {
        Some(doc) => match Claims::from_json(&doc) {
            Some(claims) => Ok(claims.sub),
            None => Err(ApiError::InvalidToken),
        },
        None => Err(ApiError::InvalidToken),
    }
}

/// Checks the credential of a request, given the value of its
/// `Authorization` header and the server's secret, and hands back the
/// identity that the credential names. A request without a bearer
/// credential is refused before the secret is looked at, and a server
/// without a secret refuses every credential.
pub fn validate_token(authorization: Option<&str>, secret: Option<&str>) -> (outcome: Result<
    String,
    ApiError,
>)
    ensures
        !(authorization matches Some(header) && bearer_of(header@).is_some()) ==> outcome == Err::<
            String,
            ApiError,
        >(ApiError::NoToken),
        (authorization matches Some(header) && bearer_of(header@).is_some()) && secret.is_none()
            ==> outcome == Err::<String, ApiError>(ApiError::SecretMissing),
        (authorization matches Some(header) && bearer_of(header@).is_some()) && secret.is_some()
            ==> outcome.is_ok() || outcome == Err::<String, ApiError>(ApiError::InvalidToken),
{
    let token = match authorization {
        Some(header) => bearer_token(header),
        None => None,
    };
    match (token, secret) {
        (None, _) => Err(ApiError::NoToken),
        (Some(_), None) => Err(ApiError::SecretMissing),
        (Some(token), Some(secret)) => subject_of(decode_claims(token, secret)),
    }
}

/// Checks the credential with which a participant asks for a connection,
/// given the query string of the request and the server's secret.
pub fn validate_query_token(query: &str, secret: Option<&str>) -> (outcome: Result<String, ApiError>)
    ensures
        token_of_query(query@).is_none() ==> outcome == Err::<String, ApiError>(ApiError::NoToken),
        token_of_query(query@).is_some() && secret.is_none() ==> outcome == Err::<String, ApiError>(
            ApiError::SecretMissing,
        ),
        token_of_query(query@).is_some() && secret.is_some() ==> outcome.is_ok() || outcome
            == Err::<String, ApiError>(ApiError::InvalidToken),
{
    match (token_from_query(query), secret) {
        (None, _) => Err(ApiError::NoToken),
        (Some(_), None) => Err(ApiError::SecretMissing),
        (Some(token), Some(secret)) => subject_of(decode_claims(token, secret)),
    }
}

} // verus!
