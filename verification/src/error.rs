//! The error every command and query answers with, and the HTTP status and
//! stable code each kind of error maps to.
use vstd::prelude::*;

use crate::text::{decimal_digits, u64_to_decimal};

verus! {

#[derive(Debug)]
pub enum AppError {
    NotFound { resource: &'static str },
    Unauthorized,
    Forbidden,
    Validation(String),
    Conflict(String),
    Unavailable { service: &'static str },
    RateLimited { retry_after_secs: u64 },
    /// The detail is for the logs only; clients are told nothing about it.
    Internal(String),
}

impl AppError {
    /// Wraps an unexpected failure, keeping its description for the logs.
    pub fn internal(detail: String) -> (e: AppError)
        ensures
            e == AppError::Internal(detail),
    {
        AppError::Internal(detail)
    }

    /// The HTTP status the error is answered with.
    pub fn status(&self) -> (s: u16)
        ensures
            s == spec_status(*self),
    {
        match self {
            AppError::NotFound { .. } => 404,
            AppError::Unauthorized => 401,
            AppError::Forbidden => 403,
            AppError::Validation(_) => 422,
            AppError::Conflict(_) => 409,
            AppError::Unavailable { .. } => 503,
            AppError::RateLimited { .. } => 429,
            AppError::Internal(_) => 500,
        }
    }

    /// The stable, machine-readable code placed in the error body.
    pub fn code(&self) -> (c: &'static str)
        ensures
            c@ == spec_code(*self)@,
    {
        match self {
            AppError::NotFound { .. } => "not_found",
            AppError::Unauthorized => "unauthorized",
            AppError::Forbidden => "forbidden",
            AppError::Validation(_) => "validation_failed",
            AppError::Conflict(_) => "conflict",
            AppError::Unavailable { .. } => "unavailable",
            AppError::RateLimited { .. } => "rate_limited",
            AppError::Internal(_) => "internal",
        }
    }

    /// The error's description, as written to the logs.
    pub fn description(&self) -> (d: String)
        ensures
            d@ == spec_description(*self),
    {
        proof {
            reveal_strlit(" not found");
            reveal_strlit(" is unavailable");
            reveal_strlit("too many requests; retry after ");
            reveal_strlit("s");
            reveal_strlit("internal error: ");
        }
        match self {
            AppError::NotFound { resource } => {
                let mut d = String::from_str(resource);
                d.append(" not found");
                d
            },
            AppError::Unauthorized => String::from_str("unauthorized"),
            AppError::Forbidden => String::from_str("forbidden"),
            AppError::Validation(m) => m.clone(),
            AppError::Conflict(m) => m.clone(),
            AppError::Unavailable { service } => {
                let mut d = String::from_str(service);
                d.append(" is unavailable");
                d
            },
            AppError::RateLimited { retry_after_secs } => {
                let mut d = String::from_str("too many requests; retry after ");
                let secs = u64_to_decimal(*retry_after_secs);
                d.append(secs.as_str());
                d.append("s");
                d
            },
            AppError::Internal(m) => {
                let mut d = String::from_str("internal error: ");
                d.append(m.as_str());
                d
            },
        }
    }

    /// The message the client is answered with: the description, except
    /// that an internal error says nothing about itself.
    pub fn public_message(&self) -> (m: String)
        ensures
            m@ == spec_public_message(*self),
            *self is Internal ==> m@ == "internal server error"@,
    {
        if self.exposes_detail() {
            self.description()
        } else {
            String::from_str("internal server error")
        }
    }

    /// The `Retry-After` a refusal carries, in seconds.
    pub fn retry_after(&self) -> (r: Option<u64>)
        ensures
            r == match *self {
                AppError::RateLimited { retry_after_secs } => Some(retry_after_secs),
                _ => None::<u64>,
            },
    {
        match self {
            AppError::RateLimited { retry_after_secs } => Some(*retry_after_secs),
            _ => None,
        }
    }

    /// Whether the client may see the error's own description; an internal
    /// error is an information-disclosure channel and is answered with a
    /// fixed text instead.
    pub fn exposes_detail(&self) -> (b: bool)
        ensures
            b == !(*self is Internal),
    {
        !matches!(self, AppError::Internal(_))
    }
}

pub open spec fn spec_status(e: AppError) -> u16 {
    match e {
        AppError::NotFound { .. } => 404,
        AppError::Unauthorized => 401,
        AppError::Forbidden => 403,
        AppError::Validation(_) => 422,
        AppError::Conflict(_) => 409,
        AppError::Unavailable { .. } => 503,
        AppError::RateLimited { .. } => 429,
        AppError::Internal(_) => 500,
    }
}

pub open spec fn spec_description(e: AppError) -> Seq<char> {
    match e {
        AppError::NotFound { resource } => resource@ + " not found"@,
        AppError::Unauthorized => "unauthorized"@,
        AppError::Forbidden => "forbidden"@,
        AppError::Validation(m) => m@,
        AppError::Conflict(m) => m@,
        AppError::Unavailable { service } => service@ + " is unavailable"@,
        AppError::RateLimited { retry_after_secs } => "too many requests; retry after "@
            + decimal_digits(retry_after_secs as nat) + "s"@,
        AppError::Internal(m) => "internal error: "@ + m@,
    }
}

pub open spec fn spec_public_message(e: AppError) -> Seq<char> {
    match e {
        AppError::Internal(_) => "internal server error"@,
        _ => spec_description(e),
    }
}

pub open spec fn spec_code(e: AppError) -> &'static str {
    match e {
        AppError::NotFound { .. } => "not_found",
        AppError::Unauthorized => "unauthorized",
        AppError::Forbidden => "forbidden",
        AppError::Validation(_) => "validation_failed",
        AppError::Conflict(_) => "conflict",
        AppError::Unavailable { .. } => "unavailable",
        AppError::RateLimited { .. } => "rate_limited",
        AppError::Internal(_) => "internal",
    }
}

} // verus!
