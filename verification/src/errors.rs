//! The bot's own error type and how the errors of the crates it builds on
//! map onto it.

use vstd::prelude::*;
use vstd::std_specs::convert::FromSpecImpl;

verus! {

/// The error of a Discord (serenity) call.
#[verifier::external_type_specification]
#[verifier::external_body]
pub struct ExSerenityError(poise::serenity_prelude::Error);

/// The error of a database (sqlx) call.
#[verifier::external_type_specification]
#[verifier::external_body]
pub struct ExSqlxError(sqlx::Error);

/// The error of an input/output operation.
#[verifier::external_type_specification]
#[verifier::external_body]
pub struct ExIoError(std::io::Error);

/// The error of a JSON (serde_json) conversion.
#[verifier::external_type_specification]
#[verifier::external_body]
pub struct ExSerdeJsonError(serde_json::Error);

/// The error of an HTTP (reqwest) request.
#[verifier::external_type_specification]
#[verifier::external_body]
pub struct ExReqwestError(reqwest::Error);

/// What part of the bot a failure comes from.
#[derive(Clone, Copy, Debug, PartialEq, Eq, Structural)]
pub enum BotError {
    FrameworkError,
    DatabaseError,
    IOError,
    SerdeError,
    APIError,
}

impl From<poise::serenity_prelude::Error> for BotError {
    fn from(_value: poise::serenity_prelude::Error) -> (r: Self) {
        BotError::FrameworkError
    }
}

impl FromSpecImpl<poise::serenity_prelude::Error> for BotError {
    open spec fn obeys_from_spec() -> bool {
        true
    }

    open spec fn from_spec(v: poise::serenity_prelude::Error) -> Self {
        BotError::FrameworkError
    }
}

impl From<sqlx::Error> for BotError {
    fn from(_value: sqlx::Error) -> (r: Self) {
        BotError::DatabaseError
    }
}

impl FromSpecImpl<sqlx::Error> for BotError {
    open spec fn obeys_from_spec() -> bool {
        true
    }

    open spec fn from_spec(v: sqlx::Error) -> Self {
        BotError::DatabaseError
    }
}

impl From<std::io::Error> for BotError {
    fn from(_value: std::io::Error) -> (r: Self) {
        BotError::IOError
    }
}

impl FromSpecImpl<std::io::Error> for BotError {
    open spec fn obeys_from_spec() -> bool {
        true
    }

    open spec fn from_spec(v: std::io::Error) -> Self {
        BotError::IOError
    }
}

impl From<serde_json::Error> for BotError {
    fn from(_value: serde_json::Error) -> (r: Self) {
        BotError::SerdeError
    }
}

impl FromSpecImpl<serde_json::Error> for BotError {
    open spec fn obeys_from_spec() -> bool {
        true
    }

    open spec fn from_spec(v: serde_json::Error) -> Self {
        BotError::SerdeError
    }
}

impl From<reqwest::Error> for BotError {
    fn from(_value: reqwest::Error) -> (r: Self) {
        BotError::APIError
    }
}

impl FromSpecImpl<reqwest::Error> for BotError {
    open spec fn obeys_from_spec() -> bool {
        true
    }

    open spec fn from_spec(v: reqwest::Error) -> Self {
        BotError::APIError
    }
}

} // verus!
