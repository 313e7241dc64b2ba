use planning_poker::api::ApiError;
use planning_poker::handlers::auth::{
    authenticate, create_jwt, get_me, login, new_user, register, user_response, TOKEN_LIFETIME,
};
use planning_poker::json::Json;
use planning_poker::middleware::auth::{
    bearer_token, subject_of, token_from_query, validate_query_token, validate_token, Claims,
};
use planning_poker::models::user::{CreateUserDto, LoginDto, User};

const SECRET: &str = "a secret for tests";
const USER: &str = "65a1b2c3d4e5f60718293a40";

fn now() -> u64 {
    std::time::SystemTime::now().duration_since(std::time::UNIX_EPOCH).unwrap().as_secs()
}

fn dto(password: &str) -> CreateUserDto {
    CreateUserDto {
        email: "bo@example.com".to_string(),
        username: "Bo".to_string(),
        password: password.to_string(),
        profile_image: Some("/uploads/bo.jpg".to_string()),
    }
}

#[test]
fn bearer_token_follows_the_prefix() {
    assert_eq!(bearer_token("Bearer abc.def"), Some("abc.def"));
    assert_eq!(bearer_token("Bearer "), Some(""));
    assert_eq!(bearer_token("Bearer"), None);
    assert_eq!(bearer_token("bearer abc"), None);
    assert_eq!(bearer_token("Basic abc"), None);
    assert_eq!(bearer_token(""), None);
    assert_eq!(bearer_token(" Bearer abc"), None);
}

#[test]
fn query_token_is_the_first_token_parameter() {
    assert_eq!(token_from_query("token=abc"), Some("abc"));
    assert_eq!(token_from_query("a=1&token=abc&b=2"), Some("abc"));
    assert_eq!(token_from_query("token=abc&token=def"), Some("abc"));
    assert_eq!(token_from_query("token="), Some(""));
    assert_eq!(token_from_query("a=1&token="), Some(""));
    assert_eq!(token_from_query("xtoken=abc"), None);
    assert_eq!(token_from_query("a=token=abc"), None);
    assert_eq!(token_from_query("token"), None);
    assert_eq!(token_from_query(""), None);
    assert_eq!(token_from_query("&&token=x=y&"), Some("x=y"));
    assert_eq!(token_from_query("a=1&b=2"), None);
}

#[test]
fn claims_round_trip() {
    let claims = Claims { sub: USER.to_string(), exp: 1_700_000_000 };
    let doc = claims.to_json().unwrap();
    assert_eq!(doc.render(), format!("{{\"sub\":\"{}\",\"exp\":1700000000}}", USER));
    assert_eq!(Claims::from_json(&doc), Some(claims));
    assert_eq!(Claims::from_json(&Json::parse("{\"sub\":\"x\"}").unwrap()), None);
    assert_eq!(Claims::from_json(&Json::parse("{\"exp\":5}").unwrap()), None);
    assert_eq!(Claims::from_json(&Json::parse("{\"sub\":\"x\",\"exp\":-1}").unwrap()), None);
    assert_eq!(Claims::from_json(&Json::parse("{\"sub\":7,\"exp\":5}").unwrap()), None);
}

#[test]
fn subject_of_reads_checked_claims() {
    assert_eq!(subject_of(None), Err(ApiError::InvalidToken));
    assert_eq!(subject_of(Json::parse("{\"exp\":5}")), Err(ApiError::InvalidToken));
    assert_eq!(subject_of(Json::parse("{\"sub\":\"x\",\"exp\":5}")), Ok("x".to_string()));
}

#[test]
fn issued_token_is_accepted() {
    let token = create_jwt(USER.to_string(), now(), SECRET).unwrap();
    assert_eq!(token.split('.').count(), 3);
    let header = format!("Bearer {}", token);
    assert_eq!(validate_token(Some(&header), Some(SECRET)), Ok(USER.to_string()));
    let query = format!("x=1&token={}", token);
    assert_eq!(validate_query_token(&query, Some(SECRET)), Ok(USER.to_string()));
}

#[test]
fn issued_token_depends_on_its_inputs_alone() {
    let a = create_jwt(USER.to_string(), 1_700_000_000, SECRET).unwrap();
    let b = create_jwt(USER.to_string(), 1_700_000_000, SECRET).unwrap();
    let c = create_jwt(USER.to_string(), 1_700_000_001, SECRET).unwrap();
    let d = create_jwt(USER.to_string(), 1_700_000_000, "another secret").unwrap();
    assert_eq!(a, b);
    assert_ne!(a, c);
    assert_ne!(a, d);
    assert_ne!(a, USER);
}

#[test]
fn token_carries_the_expiry_a_day_later() {
    assert_eq!(TOKEN_LIFETIME, 86400);
    let token = create_jwt(USER.to_string(), 1_700_000_000, SECRET).unwrap();
    let payload = token.split('.').nth(1).unwrap();
    let expected = "{\"sub\":\"65a1b2c3d4e5f60718293a40\",\"exp\":1700086400}";
    let alphabet = b"ABCDEFGHIJKLMNOPQRSTUVWXYZabcdefghijklmnopqrstuvwxyz0123456789-_";
    let mut encoded = String::new();
    for chunk in expected.as_bytes().chunks(3) {
        let mut n: u32 = 0;
        for (i, b) in chunk.iter().enumerate() {
            n |= (*b as u32) << (16 - 8 * i);
        }
        for i in 0..chunk.len() + 1 {
            encoded.push(alphabet[((n >> (18 - 6 * i)) & 63) as usize] as char);
        }
    }
    assert_eq!(payload, encoded);
}

#[test]
fn create_jwt_refuses_an_instant_out_of_range() {
    assert_eq!(create_jwt(USER.to_string(), u64::MAX, SECRET), Err(ApiError::Internal));
    assert_eq!(create_jwt(USER.to_string(), u64::MAX - 86400, SECRET), Err(ApiError::Internal));
    assert_eq!(create_jwt(USER.to_string(), i64::MAX as u64, SECRET), Err(ApiError::Internal));
    assert!(create_jwt(USER.to_string(), i64::MAX as u64 - 86400, SECRET).is_ok());
}

#[test]
fn credentials_are_refused_in_order() {
    let token = create_jwt(USER.to_string(), now(), SECRET).unwrap();
    let header = format!("Bearer {}", token);
    assert_eq!(validate_token(None, Some(SECRET)), Err(ApiError::NoToken));
    assert_eq!(validate_token(None, None), Err(ApiError::NoToken));
    assert_eq!(validate_token(Some("Basic x"), None), Err(ApiError::NoToken));
    assert_eq!(validate_token(Some(&header), None), Err(ApiError::SecretMissing));
    assert_eq!(validate_token(Some(&header), Some("wrong")), Err(ApiError::InvalidToken));
    assert_eq!(validate_token(Some("Bearer nonsense"), Some(SECRET)), Err(ApiError::InvalidToken));
    assert_eq!(validate_query_token("a=1", Some(SECRET)), Err(ApiError::NoToken));
    assert_eq!(validate_query_token("token=x", None), Err(ApiError::SecretMissing));
    assert_eq!(validate_query_token("token=x", Some(SECRET)), Err(ApiError::InvalidToken));
}

#[test]
fn expired_token_is_refused() {
    let token = create_jwt(USER.to_string(), 1_000_000, SECRET).unwrap();
    let header = format!("Bearer {}", token);
    assert_eq!(validate_token(Some(&header), Some(SECRET)), Err(ApiError::InvalidToken));
}

#[test]
fn register_refuses_a_taken_email() {
    assert_eq!(register(true, dto("pw")), Err(ApiError::EmailTaken));
}

#[test]
fn register_keeps_a_hash_and_login_accepts_the_password() {
    let mut user = register(false, dto("correct horse")).unwrap();
    assert_eq!(user.id, None);
    assert_eq!(user.email, "bo@example.com");
    assert_eq!(user.username, "Bo");
    assert_eq!(user.profile_image, Some("/uploads/bo.jpg".to_string()));
    assert_ne!(user.password_hash, "correct horse");
    assert!(user.password_hash.starts_with("$2"));
    user.id = Some(USER.to_string());
    let good = LoginDto { email: "bo@example.com".to_string(), password: "correct horse".to_string() };
    let response = login(Some(&user), &good, now(), SECRET).unwrap();
    assert_eq!(response.user.id, USER);
    assert_eq!(response.user.email, "bo@example.com");
    assert_eq!(response.user.username, "Bo");
    let header = format!("Bearer {}", response.token);
    assert_eq!(validate_token(Some(&header), Some(SECRET)), Ok(USER.to_string()));
    let bad = LoginDto { email: "bo@example.com".to_string(), password: "wrong".to_string() };
    assert_eq!(login(Some(&user), &bad, now(), SECRET), Err(ApiError::InvalidCredentials));
    assert_eq!(login(None, &good, now(), SECRET), Err(ApiError::InvalidCredentials));
}

#[test]
fn login_reports_a_hash_that_cannot_be_read() {
    let user = User {
        id: Some(USER.to_string()),
        email: "bo@example.com".to_string(),
        username: "Bo".to_string(),
        password_hash: "not a hash".to_string(),
        profile_image: None,
    };
    let attempt = LoginDto { email: "bo@example.com".to_string(), password: "pw".to_string() };
    assert_eq!(login(Some(&user), &attempt, now(), SECRET), Err(ApiError::Internal));
}

#[test]
fn new_user_takes_the_fields_of_the_request() {
    let user = new_user(dto("pw"), "hash".to_string());
    assert_eq!(
        user,
        User {
            id: None,
            email: "bo@example.com".to_string(),
            username: "Bo".to_string(),
            password_hash: "hash".to_string(),
            profile_image: Some("/uploads/bo.jpg".to_string()),
        }
    );
}

#[test]
fn responses_report_the_account() {
    let mut user = new_user(dto("pw"), "hash".to_string());
    user.id = Some(USER.to_string());
    let response = user_response(&user);
    assert_eq!(response.id, USER);
    assert_eq!(response.email, "bo@example.com");
    assert_eq!(response.username, "Bo");
    assert_eq!(response.profile_image, Some("/uploads/bo.jpg".to_string()));
    let answer = authenticate(&user, 1_700_000_000, SECRET).unwrap();
    assert_eq!(answer.user, response);
    assert_eq!(answer.token, create_jwt(USER.to_string(), 1_700_000_000, SECRET).unwrap());
    assert_eq!(authenticate(&user, u64::MAX, SECRET), Err(ApiError::Internal));
}

#[test]
fn get_me_checks_the_identity_first() {
    let mut user = new_user(dto("pw"), "hash".to_string());
    user.id = Some(USER.to_string());
    assert_eq!(get_me("me", Some(&user)), Err(ApiError::InvalidUserId));
    assert_eq!(get_me("me", None), Err(ApiError::InvalidUserId));
    assert_eq!(get_me(USER, None), Err(ApiError::UserNotFound));
    assert_eq!(get_me(USER, Some(&user)), Ok(user_response(&user)));
}

#[test]
fn refusals_have_their_status_and_message() {
    let cases: Vec<(ApiError, u16, &str)> = vec![
        (ApiError::NoToken, 401, "Ingen token fundet"),
        (ApiError::SecretMissing, 401, "JWT_SECRET er ikke konfigureret"),
        (ApiError::InvalidToken, 401, "Ugyldig token"),
        (ApiError::EmailTaken, 400, "Bruger med denne email findes allerede"),
        (ApiError::InvalidCredentials, 401, "Ugyldig email eller adgangskode"),
        (ApiError::InvalidUserId, 500, "Ugyldigt bruger ID"),
        (ApiError::UserNotFound, 404, "Bruger ikke fundet"),
        (ApiError::InvalidRoomId, 500, "Ugyldigt rum ID"),
        (ApiError::RoomNotFound, 404, "Spilrum ikke fundet"),
        (ApiError::AlreadyInRoom, 400, "Du er allerede i dette spilrum"),
        (ApiError::JoinFailed, 500, "Kunne ikke tilføje dig til spilrummet"),
        (ApiError::NotAMember, 403, "Du har ikke adgang til dette spilrum"),
        (ApiError::NoFile, 400, "Ingen fil modtaget"),
        (ApiError::Internal, 500, "Intern fejl"),
    ];
    for (error, status, message) in cases {
        assert_eq!(error.status(), status);
        assert_eq!(error.message(), message);
    }
}
