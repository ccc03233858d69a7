use vstd::prelude::*;
use crate::account::Settings;
use crate::codec::{is_encoding, SettingsResponse};
use crate::environment::Environment;
use crate::error::{
    service_status, ServiceError, FORBIDDEN, INTERNAL_SERVER_ERROR, NOT_FOUND, UNAUTHORIZED,
};
use crate::identity::{is_trusted, verify_email};
use crate::ids::{uuid_text, Uid};

verus! {

/// The body of a sign-up request.
#[derive(Debug, Clone)]
pub struct SignupPayload {
    pub name: String,
}

/// The payment state of an account as sent to clients.
#[derive(Debug, Clone)]
pub struct PaymentInfoResponse {
    /// Milliseconds since the Unix epoch, UTC.
    pub paid_until: u64,
    pub subscription_type: String,
}

/// The body of the liveness probe.
pub const PONG: &'static str = "Pong!";

/// The identity gate of authenticated routes: an assertion without an email
/// is unauthorised, one that fails the trust policy forbidden; otherwise the
/// email is let through. A missing verified flag counts as unverified.
pub fn check_identity(env: Environment, email: Option<String>, email_verified: Option<bool>) -> (r:
    Result<String, u16>)
    ensures
        match email {
            None => r == Err::<String, u16>(UNAUTHORIZED),
            Some(e) => if is_trusted(
                env,
                e@,
                email_verified == Some(true),
            ) {
                r matches Ok(x) && x@ == e@
            } else {
                r == Err::<String, u16>(FORBIDDEN)
            },
        },
{
    let verified = match email_verified {
        Some(v) => v,
        None => false,
    };
    match email {
        None => Err(UNAUTHORIZED),
        Some(e) => {
            if verify_email(env, e.as_str(), verified) {
                Ok(e)
            } else {
                Err(FORBIDDEN)
            }
        },
    }
}

/// The account behind an authenticated request: a failed lookup is an
/// internal error, an unknown email not found.
pub fn account_of_lookup(found: Result<Option<Uid>, ServiceError>) -> (r: Result<Uid, u16>)
    ensures
        match found {
            Ok(Some(id)) => r == Ok::<Uid, u16>(id),
            Ok(None) => r == Err::<Uid, u16>(NOT_FOUND),
            Err(_) => r == Err::<Uid, u16>(INTERNAL_SERVER_ERROR),
        },
{
    match found {
        Ok(Some(id)) => Ok(id),
        Ok(None) => Err(NOT_FOUND),
        Err(_) => Err(INTERNAL_SERVER_ERROR),
    }
}

/// The reply to a sign-up: the new account's id as text, or the status of
/// the failure (a duplicate email is a conflict).
pub fn init_reply(created: Result<Uid, ServiceError>) -> (r: Result<String, u16>)
    ensures
        match created {
            Ok(id) => r matches Ok(t) && t@ == uuid_text(id.bits),
            Err(e) => r == Err::<String, u16>(service_status(e)),
        },
{
    match created {
        Ok(id) => Ok(id.to_text()),
        Err(e) => Err(e.status_code()),
    }
}

/// The reply to a request for the caller's own account id.
pub fn me_reply(found: Result<Option<Uid>, ServiceError>) -> (r: Result<String, u16>)
    ensures
        match found {
            Ok(Some(id)) => r matches Ok(t) && t@ == uuid_text(id.bits),
            Ok(None) => r == Err::<String, u16>(NOT_FOUND),
            Err(_) => r == Err::<String, u16>(INTERNAL_SERVER_ERROR),
        },
{
    match account_of_lookup(found) {
        Ok(id) => Ok(id.to_text()),
        Err(status) => Err(status),
    }
}

/// The reply to a request for the caller's preferences: their complete wire
/// form, or the status of the failure.
pub fn settings_reply(found: Result<Settings, ServiceError>) -> (r: Result<SettingsResponse, u16>)
    ensures
        match found {
            Ok(s) => r matches Ok(w) && is_encoding(s, w),
            Err(e) => r == Err::<SettingsResponse, u16>(service_status(e)),
        },
{
    match found {
        Ok(s) => Ok(SettingsResponse::encode(&s)),
        Err(e) => Err(e.status_code()),
    }
}

} // verus!
