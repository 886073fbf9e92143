//! Failure reasons of the degree-audit subsystem.

use vstd::prelude::*;
use crate::text;
use crate::text::decimal;
use crate::text::digit_char;

verus! {

/// Why an audit could not be delivered.
#[derive(Debug, Clone, PartialEq, Eq)]
pub enum DegreeAuditError {
    /// The transport failed before a response arrived.
    Network { message: String },
    /// A response came from the sign-on pages: the credential is no longer valid.
    SessionExpired { redirect_url: String },
    /// No credential was supplied.
    NoSession { message: String },
    /// The portal answered in a way the protocol does not provide for.
    UnexpectedResponse { message: String },
    /// The job list page names no job.
    NoJobFound,
    /// The portal reported that the job failed.
    JobFailed { reason: String },
    /// The job was not ready within the allowed attempts or time.
    PollTimeout { attempts: u32, elapsed_millis: u64 },
    /// The report page could not be turned into a structured audit.
    ParseError { message: String },
    /// A URL could not be built.
    UrlError { message: String },
    /// Too many recent failures: requests are refused for a while.
    CircuitBreakerOpen,
    /// Another operation for the same session is under way.
    OperationInProgress,
    /// The credential supplier failed.
    CookieFetchError { message: String },
}

/// HTTP status for sessions that must sign on again.
pub const STATUS_UNAUTHORIZED: u16 = 401;

/// HTTP status for a failure with no more specific code.
pub const STATUS_INTERNAL_ERROR: u16 = 500;

/// HTTP status for a failing credential supplier.
pub const STATUS_BAD_GATEWAY: u16 = 502;

/// HTTP status while the circuit breaker refuses requests.
pub const STATUS_UNAVAILABLE: u16 = 503;

/// HTTP status for a job that was not ready in time.
pub const STATUS_GATEWAY_TIMEOUT: u16 = 504;

/// What an endpoint tells the caller about an expired session.
pub const SAY_EXPIRED: &'static str = "Session expired - please re-authenticate";

/// What an endpoint tells the caller about a missing session.
pub const SAY_NO_SESSION: &'static str = "No active session";

/// What an endpoint tells the caller while the breaker is open.
pub const SAY_UNAVAILABLE: &'static str =
    "Service temporarily unavailable due to repeated failures";

/// What an endpoint tells the caller about a job that was not ready in time.
pub const SAY_TIMED_OUT: &'static str = "Audit generation timed out";

/// What an endpoint tells the caller about a failing credential supplier.
pub const SAY_NO_COOKIES: &'static str = "Failed to fetch authentication cookies";

/// What an endpoint tells the caller about any other failure.
pub const SAY_FAILED: &'static str = "Failed to fetch degree audit";

/// A time in milliseconds as seconds with one decimal place, rounded to the
/// nearest tenth, halves upwards.
pub open spec fn seconds_text(millis: nat) -> Seq<char> {
    let tenths = millis / 100 + if millis % 100 >= 50 {
        1nat
    } else {
        0nat
    };
    decimal(tenths / 10) + seq!['.', digit_char(tenths % 10)]
}

impl DegreeAuditError {
    /// The caller must obtain a fresh credential.
    pub open spec fn reauth(self) -> bool {
        self is SessionExpired || self is NoSession
    }

    /// The failure may be transient: transport failures, timeouts and
    /// responses that were not provided for.
    pub open spec fn retryable(self) -> bool {
        self is Network || self is PollTimeout || self is UnexpectedResponse
    }

    /// The HTTP status under which the failure is reported.
    pub open spec fn status(self) -> u16 {
        if self is SessionExpired || self is NoSession {
            STATUS_UNAUTHORIZED
        } else if self is CircuitBreakerOpen {
            STATUS_UNAVAILABLE
        } else if self is PollTimeout {
            STATUS_GATEWAY_TIMEOUT
        } else if self is CookieFetchError {
            STATUS_BAD_GATEWAY
        } else {
            STATUS_INTERNAL_ERROR
        }
    }

    /// What an endpoint tells the caller, in general terms.
    pub open spec fn summary(self) -> Seq<char> {
        if self is SessionExpired {
            SAY_EXPIRED@
        } else if self is NoSession {
            SAY_NO_SESSION@
        } else if self is CircuitBreakerOpen {
            SAY_UNAVAILABLE@
        } else if self is PollTimeout {
            SAY_TIMED_OUT@
        } else if self is CookieFetchError {
            SAY_NO_COOKIES@
        } else {
            SAY_FAILED@
        }
    }

    /// The error in words, with its details.
    pub open spec fn description(self) -> Seq<char> {
        match self {
            DegreeAuditError::Network { message } => "Network error: "@ + message@,
            DegreeAuditError::SessionExpired { redirect_url } => "Session expired, redirected to: "@
                + redirect_url@,
            DegreeAuditError::NoSession { message } => "No active session: "@ + message@,
            DegreeAuditError::UnexpectedResponse { message } => "Unexpected response: "@
                + message@,
            DegreeAuditError::NoJobFound => "No audit job found in list page"@,
            DegreeAuditError::JobFailed { reason } => "Audit job failed: "@ + reason@,
            DegreeAuditError::PollTimeout { attempts, elapsed_millis } => "Poll timeout after "@
                + decimal(attempts as nat) + " attempts ("@ + seconds_text(elapsed_millis as nat)
                + "s elapsed)"@,
            DegreeAuditError::ParseError { message } => "Parse error: "@ + message@,
            DegreeAuditError::UrlError { message } => "URL error: "@ + message@,
            DegreeAuditError::CircuitBreakerOpen => "Circuit breaker open - too many recent failures"@,
            DegreeAuditError::OperationInProgress => "Audit operation already in progress for this session"@,
            DegreeAuditError::CookieFetchError { message } => "Failed to fetch cookies from auth server: "@
                + message@,
        }
    }

    /// Whether the session has to be refreshed before another attempt.
    pub fn needs_reauth(&self) -> (r: bool)
        ensures
            r == self.reauth(),
    {
        match self {
            DegreeAuditError::SessionExpired { .. } => true,
            DegreeAuditError::NoSession { .. } => true,
            _ => false,
        }
    }

    /// Whether the failure is potentially transient. Only such failures
    /// count against the circuit breaker.
    pub fn is_retryable(&self) -> (r: bool)
        ensures
            r == self.retryable(),
    {
        match self {
            DegreeAuditError::Network { .. } => true,
            DegreeAuditError::PollTimeout { .. } => true,
            DegreeAuditError::UnexpectedResponse { .. } => true,
            _ => false,
        }
    }

    /// The HTTP status under which an endpoint reports the failure.
    pub fn status_code(&self) -> (code: u16)
        ensures
            code == self.status(),
    {
        match self {
            DegreeAuditError::SessionExpired { .. } => STATUS_UNAUTHORIZED,
            DegreeAuditError::NoSession { .. } => STATUS_UNAUTHORIZED,
            DegreeAuditError::CircuitBreakerOpen => STATUS_UNAVAILABLE,
            DegreeAuditError::PollTimeout { .. } => STATUS_GATEWAY_TIMEOUT,
            DegreeAuditError::CookieFetchError { .. } => STATUS_BAD_GATEWAY,
            _ => STATUS_INTERNAL_ERROR,
        }
    }
}

impl DegreeAuditError {
    /// What an endpoint tells the caller about the failure, in general
    /// terms that disclose no detail.
    pub fn public_message(&self) -> (r: &'static str)
        ensures
            r@ == self.summary(),
    {
        match self {
            DegreeAuditError::SessionExpired { .. } => SAY_EXPIRED,
            DegreeAuditError::NoSession { .. } => SAY_NO_SESSION,
            DegreeAuditError::CircuitBreakerOpen => SAY_UNAVAILABLE,
            DegreeAuditError::PollTimeout { .. } => SAY_TIMED_OUT,
            DegreeAuditError::CookieFetchError { .. } => SAY_NO_COOKIES,
            _ => SAY_FAILED,
        }
    }

    /// The error in words, with its details: what kind of failure it is and
    /// the message, address, reason or counts that it carries.
    pub fn describe(&self) -> (r: String)
        ensures
            r@ == self.description(),
    {
        let mut out: Vec<char> = Vec::new();
        match self {
            DegreeAuditError::Network { message } => {
                text::push_str(&mut out, "Network error: ");
                text::push_str(&mut out, message.as_str());
            },
            DegreeAuditError::SessionExpired { redirect_url } => {
                text::push_str(&mut out, "Session expired, redirected to: ");
                text::push_str(&mut out, redirect_url.as_str());
            },
            DegreeAuditError::NoSession { message } => {
                text::push_str(&mut out, "No active session: ");
                text::push_str(&mut out, message.as_str());
            },
            DegreeAuditError::UnexpectedResponse { message } => {
                text::push_str(&mut out, "Unexpected response: ");
                text::push_str(&mut out, message.as_str());
            },
            DegreeAuditError::NoJobFound => {
                text::push_str(&mut out, "No audit job found in list page");
            },
            DegreeAuditError::JobFailed { reason } => {
                text::push_str(&mut out, "Audit job failed: ");
                text::push_str(&mut out, reason.as_str());
            },
            DegreeAuditError::PollTimeout { attempts, elapsed_millis } => {
                let millis: u64 = *elapsed_millis;
                let tenths: u64 = millis / 100 + if millis % 100 >= 50 {
                    1
                } else {
                    0
                };
                text::push_str(&mut out, "Poll timeout after ");
                text::push_decimal(&mut out, *attempts as u64);
                text::push_str(&mut out, " attempts (");
                text::push_decimal(&mut out, tenths / 10);
                out.push('.');
                out.push((48 + (tenths % 10) as u8) as char);
                text::push_str(&mut out, "s elapsed)");
                assert(out@ =~= self.description());
            },
            DegreeAuditError::ParseError { message } => {
                text::push_str(&mut out, "Parse error: ");
                text::push_str(&mut out, message.as_str());
            },
            DegreeAuditError::UrlError { message } => {
                text::push_str(&mut out, "URL error: ");
                text::push_str(&mut out, message.as_str());
            },
            DegreeAuditError::CircuitBreakerOpen => {
                text::push_str(&mut out, "Circuit breaker open - too many recent failures");
            },
            DegreeAuditError::OperationInProgress => {
                text::push_str(&mut out, "Audit operation already in progress for this session");
            },
            DegreeAuditError::CookieFetchError { message } => {
                text::push_str(&mut out, "Failed to fetch cookies from auth server: ");
                text::push_str(&mut out, message.as_str());
            },
        }
        assert(out@ =~= self.description());
        text::string_of(out)
    }
}

/// A retryable failure never asks for a fresh credential, and the other way
/// round: the two classifications do not overlap.
pub proof fn retryable_excludes_reauth(e: DegreeAuditError)
    ensures
        !(e.retryable() && e.reauth()),
{
}

} // verus!
