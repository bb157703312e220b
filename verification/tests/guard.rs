use user_auth::auth::guard::{decide, GuardOutcome, FORWARD_STATUS, JWT};
use user_auth::auth::token::{create_jwt, create_jwt_at, Claims, TokenError, TokenService};

fn guard_service() -> TokenService {
    TokenService::new(String::from("guard secret"), 60)
}

#[test]
fn request_without_header_is_not_applicable() {
    let outcome = JWT::from_request_at(None, &guard_service(), 1000);
    assert_eq!(outcome, GuardOutcome::NotApplicable);
    assert_eq!(outcome.forward_status(), Some(400));
    assert_eq!(JWT::from_request(None, &guard_service()), GuardOutcome::NotApplicable);
}

#[test]
fn request_with_valid_token_is_authenticated() {
    let svc = guard_service();
    let token = create_jwt_at(String::from("user-7"), &svc, 1000).unwrap();
    let expected = GuardOutcome::Authenticated(JWT {
        claims: Claims { subject_id: String::from("user-7"), exp: 1060 },
    });
    assert_eq!(JWT::from_request_at(Some(&token), &svc, 1000), expected);
    let header = format!("Bearer {}", token);
    let outcome = JWT::from_request_at(Some(&header), &svc, 1030);
    assert_eq!(outcome, expected);
    assert_eq!(outcome.forward_status(), None);
}

#[test]
fn request_with_expired_token_is_rejected_as_expired() {
    let svc = guard_service();
    let token = create_jwt_at(String::from("user-7"), &svc, 1000).unwrap();
    let header = format!("Bearer {}", token);
    let outcome = JWT::from_request_at(Some(&header), &svc, 1061);
    assert_eq!(outcome, GuardOutcome::Rejected(TokenError::Expired));
    assert_eq!(outcome.forward_status(), Some(400));
}

#[test]
fn request_with_bad_token_is_rejected_as_invalid() {
    let svc = guard_service();
    for header in ["", "Bearer", "Bearer garbage", "Bearer a.b.c"] {
        let outcome = JWT::from_request_at(Some(header), &svc, 1000);
        assert_eq!(outcome, GuardOutcome::Rejected(TokenError::Invalid));
        assert_eq!(outcome.forward_status(), Some(400));
    }
    let foreign = create_jwt_at(String::from("user-7"), &TokenService::new(String::from("x"), 60), 1000).unwrap();
    assert_eq!(
        JWT::from_request_at(Some(&foreign), &svc, 1000),
        GuardOutcome::Rejected(TokenError::Invalid)
    );
}

#[test]
fn every_rejection_forwards_with_the_same_status() {
    assert_eq!(FORWARD_STATUS, 400);
    for reason in [TokenError::Expired, TokenError::Invalid, TokenError::Other(String::from("x"))] {
        assert_eq!(GuardOutcome::Rejected(reason).forward_status(), Some(FORWARD_STATUS));
    }
    assert_eq!(GuardOutcome::NotApplicable.forward_status(), Some(FORWARD_STATUS));
}

#[test]
fn decide_wraps_the_validation_outcome() {
    let claims = Claims { subject_id: String::from("s"), exp: 3 };
    assert_eq!(decide(Ok(claims.clone())), GuardOutcome::Authenticated(JWT { claims }));
    assert_eq!(decide(Err(TokenError::Expired)), GuardOutcome::Rejected(TokenError::Expired));
    assert_eq!(
        decide(Err(TokenError::Other(String::from("d")))),
        GuardOutcome::Rejected(TokenError::Other(String::from("d")))
    );
}

#[test]
fn wall_clock_guard_accepts_a_fresh_token() {
    let svc = guard_service();
    let token = create_jwt(String::from("user-7"), &svc).unwrap();
    let header = format!("Bearer {}", token);
    match JWT::from_request(Some(&header), &svc) {
        GuardOutcome::Authenticated(jwt) => assert_eq!(jwt.claims.subject_id, "user-7"),
        other => panic!("{:?}", other),
    }
    let old = create_jwt_at(String::from("user-7"), &svc, 1000).unwrap();
    assert_eq!(JWT::from_request(Some(&old), &svc), GuardOutcome::Rejected(TokenError::Expired));
}
