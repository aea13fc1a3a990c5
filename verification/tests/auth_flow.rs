use team_polls::handlers::auth::{
    login, login_checked, register, register_hashed, AuthPayload, Claims, LoginStep, RegisterStep,
    SigningFailure, UserRow,
};
use team_polls::middleware::auth::{authorize, bearer_token};
use team_polls::{DbFailure, Status};

/// Lowercase hyphenated UUID with version 4 and the RFC 4122 variant.
pub fn is_uuid_v4(s: &str) -> bool {
    let c: Vec<char> = s.chars().collect();
    c.len() == 36
        && c.iter().enumerate().all(|(i, ch)| {
            if [8, 13, 18, 23].contains(&i) { *ch == '-' } else { ch.is_ascii_digit() || ('a'..='f').contains(ch) }
        })
        && c[14] == '4'
        && "89ab".contains(c[19])
}

fn payload(email: &str, password: &str) -> AuthPayload {
    AuthPayload { email: email.to_string(), password: password.to_string() }
}

#[test]
fn bearer_token_is_the_rest_of_the_header() {
    assert_eq!(bearer_token(Some("Bearer abc.def.ghi")).unwrap(), "abc.def.ghi");
    assert_eq!(bearer_token(Some("Bearer ")).unwrap(), "");
    assert_eq!(bearer_token(Some("Bearer  x")).unwrap(), " x");
}

#[test]
fn bearer_token_refuses_missing_or_other_schemes() {
    assert_eq!(bearer_token(None).unwrap_err(), Status::Unauthorized);
    assert_eq!(bearer_token(Some("Basic abc")).unwrap_err(), Status::Unauthorized);
    assert_eq!(bearer_token(Some("Bearer")).unwrap_err(), Status::Unauthorized);
    assert_eq!(bearer_token(Some("bearer abc")).unwrap_err(), Status::Unauthorized);
    assert_eq!(bearer_token(Some("")).unwrap_err(), Status::Unauthorized);
}

#[test]
fn authorize_takes_the_subject_of_valid_claims() {
    let user = authorize(Some(Claims { sub: "u-1".to_string(), exp: 10 })).unwrap();
    assert_eq!(user.user_id, "u-1");
    assert_eq!(authorize(None).unwrap_err(), Status::Unauthorized);
}

#[test]
fn claims_expire_one_day_after_issue() {
    let c = Claims::for_user(&"u-7".to_string(), 1_700_000_000);
    assert_eq!(c.sub, "u-7");
    assert_eq!(c.exp, 1_700_086_400);
}

#[test]
fn status_codes_are_the_http_ones() {
    assert_eq!(Status::Success.code(), 200);
    assert_eq!(Status::BadRequest.code(), 400);
    assert_eq!(Status::Unauthorized.code(), 401);
    assert_eq!(Status::Forbidden.code(), 403);
    assert_eq!(Status::NotFound.code(), 404);
    assert_eq!(Status::Conflict.code(), 409);
    assert_eq!(Status::InternalServerError.code(), 500);
}

#[test]
fn registered_password_logs_in() {
    let step = register(payload("a@example.com", "hunter2"));
    let RegisterStep::InsertUser(p) = step else { panic!("expected the user to be stored") };
    let (id, email, hash) = p.user();
    assert!(is_uuid_v4(id));
    assert_eq!(email, "a@example.com");
    assert_ne!(hash, "hunter2");
    assert_eq!(hash.len(), 60);
    assert!(hash.starts_with("$2b$12$"));
    let row = UserRow { id: id.clone(), password_hash: hash.clone() };
    let RegisterStep::IssueToken(t) = p.resume(Ok(())) else { panic!("expected a token") };
    assert_eq!(t.user_id(), &row.id);
    let reply = t.resume(Ok("signed".to_string())).unwrap();
    assert_eq!(reply.access_token, "signed");
    assert_eq!(reply.token_type, "Bearer");
    assert_eq!(reply.user_id, row.id);

    let LoginStep::FindUser(f) = login(payload("a@example.com", "hunter2")) else { panic!() };
    assert_eq!(f.email(), "a@example.com");
    let expected_id = row.id.clone();
    let LoginStep::IssueToken(t) = f.resume(Ok(Some(row))) else { panic!("password should match") };
    assert_eq!(t.user_id(), &expected_id);
}

#[test]
fn register_refuses_taken_email() {
    let hash = bcrypt::hash("pw", 4).unwrap();
    let RegisterStep::InsertUser(p) = register_hashed("b@example.com".to_string(), Ok(hash)) else { panic!() };
    match p.resume(Err(DbFailure)) {
        RegisterStep::Reply(Err((s, e))) => {
            assert_eq!(s, Status::BadRequest);
            assert_eq!(e.error, "User already exists or email is invalid");
        },
        _ => panic!("expected a refusal"),
    }
}

#[test]
fn register_reports_hash_failure() {
    match register_hashed("c@example.com".to_string(), Err(bcrypt::BcryptError::CostNotAllowed(1))) {
        RegisterStep::Reply(Err((s, e))) => {
            assert_eq!(s, Status::InternalServerError);
            assert_eq!(e.error, "Failed to hash password");
        },
        _ => panic!("expected a refusal"),
    }
}

#[test]
fn token_signing_failure_is_reported() {
    let LoginStep::IssueToken(t) = login_checked("u".to_string(), Ok(true)) else { panic!() };
    let c = t.claims(100);
    assert_eq!(c.sub, "u");
    assert_eq!(c.exp, 86_500);
    let c = t.claims_checked(100).unwrap();
    assert_eq!((c.sub.as_str(), c.exp), ("u", 86_500));
    assert!(t.claims_checked(i64::MAX - 86_400).is_some());
    assert!(t.claims_checked(i64::MAX - 86_399).is_none());
    let (s, e) = t.resume(Err(SigningFailure)).unwrap_err();
    assert_eq!(s, Status::InternalServerError);
    assert_eq!(e.error, "Error creating token");
}

fn expect_invalid_credentials(step: LoginStep) {
    match step {
        LoginStep::Reply(Err((s, e))) => {
            assert_eq!(s, Status::Unauthorized);
            assert_eq!(e.error, "Invalid credentials");
        },
        _ => panic!("expected invalid credentials"),
    }
}

#[test]
fn login_refuses_unknown_email_and_wrong_password_alike() {
    let LoginStep::FindUser(f) = login(payload("x@example.com", "pw")) else { panic!() };
    expect_invalid_credentials(f.resume(Ok(None)));

    let stored = bcrypt::hash("right", 4).unwrap();
    let LoginStep::FindUser(f) = login(payload("x@example.com", "wrong")) else { panic!() };
    expect_invalid_credentials(f.resume(Ok(Some(UserRow { id: "u".to_string(), password_hash: stored }))));

    let LoginStep::FindUser(f) = login(payload("x@example.com", "pw")) else { panic!() };
    expect_invalid_credentials(
        f.resume(Ok(Some(UserRow { id: "u".to_string(), password_hash: "not a hash".to_string() }))),
    );
    expect_invalid_credentials(login_checked("u".to_string(), Ok(false)));
    expect_invalid_credentials(login_checked("u".to_string(), Err(bcrypt::BcryptError::CostNotAllowed(2))));
}

#[test]
fn login_accepts_matching_password() {
    let stored = bcrypt::hash("right", 4).unwrap();
    let LoginStep::FindUser(f) = login(payload("x@example.com", "right")) else { panic!() };
    let LoginStep::IssueToken(t) = f.resume(Ok(Some(UserRow { id: "u-9".to_string(), password_hash: stored })))
    else {
        panic!("expected a token")
    };
    assert_eq!(t.user_id(), "u-9");
}

#[test]
fn login_reports_database_error() {
    let LoginStep::FindUser(f) = login(payload("x@example.com", "pw")) else { panic!() };
    match f.resume(Err(DbFailure)) {
        LoginStep::Reply(Err((s, e))) => {
            assert_eq!(s, Status::InternalServerError);
            assert_eq!(e.error, "Database error");
        },
        _ => panic!(),
    }
}
