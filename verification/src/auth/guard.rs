//! The access guard: from the authorization header of one request to the
//! decision on it.
//!
//! A request without the header is not rejected: the guard does not apply,
//! and the caller may hand the request on. A request whose token is not
//! accepted is rejected with the reason. Both are forwarded with the same
//! client-error status, so that a client sees no difference between them.

use vstd::prelude::*;
use crate::auth::token::{
    answers,
    decode_jwt,
    decode_jwt_at,
    verdict,
    Claims,
    TokenError,
    TokenService,
};

verus! {

/// An authenticated subject: the claims of a token that was accepted.
#[derive(Debug, Clone, PartialEq, Eq)]
pub struct JWT {
    pub claims: Claims,
}

/// The decision of the guard on one request.
#[derive(Debug, Clone, PartialEq, Eq)]
pub enum GuardOutcome {
    /// The token was accepted.
    Authenticated(JWT),
    /// The request carries no authorization header.
    NotApplicable,
    /// The token was not accepted.
    Rejected(TokenError),
}

/// The status with which a request is forwarded when it is not let in.
pub const FORWARD_STATUS: u16 = 400;

/// Whether `outcome` is the decision on a request with the header
/// `authorization`, under the key `secret` at the time `now`: not
/// applicable without the header, else what validating its value comes to.
pub open spec fn decides(
    outcome: GuardOutcome,
    authorization: Option<&str>,
    secret: Seq<char>,
    now: u64,
) -> bool {
    match authorization {
        None => outcome is NotApplicable,
        Some(value) => match outcome {
            GuardOutcome::Authenticated(jwt) => answers(
                Ok(jwt.claims),
                verdict(value@, secret, now),
            ),
            GuardOutcome::Rejected(reason) => answers(Err(reason), verdict(value@, secret, now)),
            GuardOutcome::NotApplicable => false,
        },
    }
}

/// The decision that follows from the outcome of validating the header.
pub fn decide(validated: Result<Claims, TokenError>) -> (outcome: GuardOutcome)
    ensures
        match validated {
            Ok(claims) => outcome == GuardOutcome::Authenticated(JWT { claims }),
            Err(reason) => outcome == GuardOutcome::Rejected(reason),
        },
{
    match validated {
        Ok(claims) => GuardOutcome::Authenticated(JWT { claims }),
        Err(reason) => GuardOutcome::Rejected(reason),
    }
}

impl JWT {
    /// Decides on a request at the time `now`, from the value of its
    /// authorization header, if it has one.
    pub fn from_request_at(authorization: Option<&str>, service: &TokenService, now: u64) -> (outcome:
        GuardOutcome)
        ensures
            decides(outcome, authorization, service.secret(), now),
    {
        match authorization {
            None => GuardOutcome::NotApplicable,
            Some(value) => decide(decode_jwt_at(value, service, now)),
        }
    }

    /// Decides on a request by the wall clock. The decision is the one that
    /// [`JWT::from_request_at`] takes for some reading `now` of the clock.
    pub fn from_request(authorization: Option<&str>, service: &TokenService) -> (outcome:
        GuardOutcome)
        ensures
            exists|now: u64|
                now <= i64::MAX && #[trigger] decides(
                    outcome,
                    authorization,
                    service.secret(),
                    now,
                ),
    {
        match authorization {
            None => {
                assert(decides(GuardOutcome::NotApplicable, authorization, service.secret(), 0));
                GuardOutcome::NotApplicable
            },
            Some(value) => {
                let validated = decode_jwt(value, service);
                let ghost now = choose|now: u64|
                    now <= i64::MAX && answers(
                        validated,
                        #[trigger] verdict(value@, service.secret(), now),
                    );
                let outcome = decide(validated);
                assert(decides(outcome, authorization, service.secret(), now));
                outcome
            },
        }
    }
}

impl GuardOutcome {
    /// The status with which the request is forwarded: none for an
    /// authenticated request, the same client error for every other.
    pub fn forward_status(&self) -> (status: Option<u16>)
        ensures
            status == if *self is Authenticated {
                None
            } else {
                Some(FORWARD_STATUS)
            },
    {
        match self {
            GuardOutcome::Authenticated(_) => None,
            _ => Some(FORWARD_STATUS),
        }
    }
}

} // verus!
